use vstd::prelude::*;
use vstd::string::StringExecFns;
use crate::runtimes::support::str_eq;
use crate::types::accounts::{ss58_decode, ss58_encode, AccountId, Address};

verus! {

/// Shown under the field when what was entered names no account.
pub const INVALID_ACCOUNT_MESSAGE: &'static str = "Invalid SS58 Account";

/// The address that entering `text` gives: the generic spelling of the
/// account that the text names, where it names one and that spelling
/// names the same account.
pub open spec fn entered_address(text: Seq<char>) -> Option<Seq<char>> {
    match ss58_decode(text) {
        Some(id) => if ss58_decode(ss58_encode(id)) == Some(id) {
            Some(ss58_encode(id))
        } else {
            None
        },
        None => None,
    }
}

/// Checks what was entered as an address, and gives it in its generic
/// spelling.
pub fn validate_account(text: &str) -> (r: Option<Address>)
    ensures
        match r {
            Some(address) => entered_address(text@) == Some(address.text()) && address.valid(),
            None => entered_address(text@) is None,
        },
{
    match AccountId::from_ss58(text) {
        Some(id) => Address::from_account_id(&id),
        None => None,
    }
}

/// The field that takes an address.
#[derive(Clone, Debug, PartialEq, Eq)]
pub struct AccountInput {
    /// What the field holds.
    pub value: String,
    /// The failure shown under the field; empty where there is none.
    pub err: String,
}

impl AccountInput {
    pub fn new() -> (r: Self)
        ensures
            r.value@.len() == 0,
            r.err@.len() == 0,
    {
        AccountInput { value: String::new(), err: String::new() }
    }

    /// The field after its content changed.
    pub fn typed(self, value: String) -> (r: Self)
        ensures
            r.value == value,
            r.err == self.err,
    {
        AccountInput { value, err: self.err }
    }

    /// Enter was pressed, or the button in the field: an address is
    /// emitted and the field cleared, or the failure is shown and the
    /// field left as it is.
    pub fn submit(self) -> (r: (Self, Option<Address>))
        ensures
            match r.1 {
                Some(address) => {
                    &&& entered_address(self.value@) == Some(address.text())
                    &&& r.0.value@.len() == 0
                    &&& r.0.err@.len() == 0
                },
                None => {
                    &&& entered_address(self.value@) is None
                    &&& r.0.value == self.value
                    &&& r.0.err@ == INVALID_ACCOUNT_MESSAGE@
                },
            },
    {
        match validate_account(self.value.as_str()) {
            Some(address) => (AccountInput { value: String::new(), err: String::new() }, Some(address)),
            None => (
                AccountInput { value: self.value, err: String::from_str(INVALID_ACCOUNT_MESSAGE) },
                None,
            ),
        }
    }

    /// A key was pressed in the field: Enter submits, other keys do
    /// nothing here.
    pub fn key_pressed(self, key: &str) -> (r: (Self, Option<Address>))
        ensures
            if key@ == "Enter"@ {
                match r.1 {
                    Some(address) => {
                        &&& entered_address(self.value@) == Some(address.text())
                        &&& r.0.value@.len() == 0
                        &&& r.0.err@.len() == 0
                    },
                    None => {
                        &&& entered_address(self.value@) is None
                        &&& r.0.value == self.value
                        &&& r.0.err@ == INVALID_ACCOUNT_MESSAGE@
                    },
                }
            } else {
                r.0.value == self.value && r.0.err == self.err && r.1 is None
            },
    {
        if str_eq(key, "Enter") {
            self.submit()
        } else {
            (self, None)
        }
    }
}

/// The field that searches descriptions.
#[derive(Clone, Debug, PartialEq, Eq)]
pub struct FilterInput {
    pub value: String,
}

impl FilterInput {
    pub fn new() -> (r: Self)
        ensures
            r.value@.len() == 0,
    {
        FilterInput { value: String::new() }
    }

    pub fn typed(self, value: String) -> (r: Self)
        ensures
            r.value == value,
    {
        FilterInput { value }
    }

    pub fn cleared(self) -> (r: Self)
        ensures
            r.value@.len() == 0,
    {
        FilterInput { value: String::new() }
    }

    /// The button that clears the field shows while the field holds
    /// something.
    pub fn is_clear_offered(&self) -> (r: bool)
        ensures
            r == (self.value@.len() > 0),
    {
        self.value.as_str().unicode_len() > 0
    }
}

} // verus!
