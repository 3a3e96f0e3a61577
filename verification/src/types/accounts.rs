use vstd::prelude::*;
use std::collections::BTreeSet;
use std::str::FromStr;
use subxt::utils::AccountId32;
use crate::runtimes::support::SupportedRelayRuntime;
use crate::runtimes::utils::{amount_human, amount_text, compact, compact_text};

verus! {

/// The 32 bytes of a public key that identify an account on chain.
#[derive(Clone, Copy, Debug, PartialEq, Eq, PartialOrd, Ord, Hash)]
pub struct AccountId(pub [u8; 32]);

impl View for AccountId {
    type V = Seq<u8>;

    open spec fn view(&self) -> Seq<u8> {
        self.0@
    }
}

impl AccountId {
    /// Two ids with the same bytes are the same id.
    pub proof fn lemma_view_is_identity(a: AccountId, b: AccountId)
        ensures
            a@ == b@ <==> a == b,
    {
        if a@ == b@ {
            assert(a.0 =~= b.0);
        }
    }

    pub fn same(&self, other: &AccountId) -> (r: bool)
        ensures
            r == (*self == *other),
    {
        let mut i: usize = 0;
        while i < 32
            invariant
                i <= 32,
                forall|j: int| 0 <= j < i ==> self.0[j] == other.0[j],
            decreases 32 - i,
        {
            if self.0[i] != other.0[i] {
                return false;
            }
            i += 1;
        }
        assert(self.0 =~= other.0);
        true
    }
}

/// The account that an SS58 text names, where it is one: the text is
/// base 58, carries a known prefix and 32 bytes, and its checksum holds.
pub uninterp spec fn ss58_decode(text: Seq<char>) -> Option<Seq<u8>>;

/// The SS58 text of an account under the generic Substrate prefix.
pub uninterp spec fn ss58_encode(id: Seq<u8>) -> Seq<char>;

/// `AccountId32::from_str` of subxt: the account that the text names, or
/// nothing where it names none.
#[verifier::external_body]
fn account_id_from_str(text: &str) -> (r: Option<AccountId>)
    ensures
        ss58_decode(text@) == match r {
            Some(id) => Some(id@),
            None => None,
        },
{
    match AccountId32::from_str(text) {
        Ok(account) => Some(AccountId(account.0)),
        Err(_) => None,
    }
}

/// `AccountId32::to_string` of subxt: the account's SS58 text.
#[verifier::external_body]
fn account_id_to_string(id: &AccountId) -> (r: String)
    ensures
        r@ == ss58_encode(id@),
{
    AccountId32(id.0).to_string()
}

/// A text shortened as an address is, or whole where it is too short
/// for that.
pub open spec fn compact_or_whole(s: Seq<char>) -> Seq<char> {
    if s.len() >= 8 {
        compact_text(s)
    } else {
        s
    }
}

impl AccountId {
    /// The account that `text` names in SS58, if any.
    pub fn from_ss58(text: &str) -> (r: Option<AccountId>)
        ensures
            ss58_decode(text@) == match r {
                Some(id) => Some(id@),
                None => None,
            },
    {
        account_id_from_str(text)
    }

    /// The account's SS58 text under the generic prefix.
    pub fn to_ss58(&self) -> (r: String)
        ensures
            r@ == ss58_encode(self@),
    {
        account_id_to_string(self)
    }

    /// The account's SS58 text, shortened for display.
    pub fn to_compact_string(&self) -> (r: String)
        ensures
            r@ == compact_or_whole(ss58_encode(self@)),
    {
        let text = account_id_to_string(self);
        if text.as_str().unicode_len() >= 8 {
            compact(text.as_str())
        } else {
            text
        }
    }
}

/// An SS58 address that is known to name an account: the text as it was
/// entered or stored, and the account it decodes to.
#[derive(Debug, PartialEq, Eq)]
pub struct Address {
    text: String,
    id: AccountId,
}

impl Address {
    #[verifier::type_invariant]
    spec fn decodes(self) -> bool {
        ss58_decode(self.text@) == Some(self.id@)
    }

    /// The address as text.
    pub closed spec fn text(self) -> Seq<char> {
        self.text@
    }

    /// The account that the address names.
    pub closed spec fn id(self) -> AccountId {
        self.id
    }

    /// What every address built by this library satisfies.
    pub open spec fn valid(self) -> bool {
        ss58_decode(self.text()) == Some(self.id()@)
    }

    pub fn parse(text: &str) -> (r: Option<Address>)
        ensures
            r is Some <==> ss58_decode(text@) is Some,
            r matches Some(a) ==> a.text() == text@ && a.valid(),
    {
        match account_id_from_str(text) {
            Some(id) => Some(Address { text: text.to_owned(), id }),
            None => None,
        }
    }

    /// The address of an account in its generic SS58 spelling. Nothing
    /// comes back only if that spelling failed to decode to the account.
    pub fn from_account_id(id: &AccountId) -> (r: Option<Address>)
        ensures
            r is Some <==> ss58_decode(ss58_encode(id@)) == Some(id@),
            r matches Some(a) ==> a.text() == ss58_encode(id@) && a.id() == *id && a.valid(),
    {
        let text = account_id_to_string(id);
        match account_id_from_str(text.as_str()) {
            Some(back) => {
                if back.same(id) {
                    Some(Address { text, id: *id })
                } else {
                    proof {
                        AccountId::lemma_view_is_identity(back, *id);
                    }
                    None
                }
            },
            None => None,
        }
    }

    pub fn as_str(&self) -> (r: &str)
        ensures
            r@ == self.text(),
    {
        self.text.as_str()
    }

    pub fn to_string(&self) -> (r: String)
        ensures
            r@ == self.text(),
    {
        self.text.clone()
    }

    pub fn account_id(&self) -> (r: AccountId)
        ensures
            r == self.id(),
            self.valid(),
    {
        proof {
            use_type_invariant(self);
        }
        self.id
    }

    pub fn same_text(&self, other: &Address) -> (r: bool)
        ensures
            r == (self.text() == other.text()),
            r ==> self.id() == other.id(),
    {
        proof {
            use_type_invariant(self);
            use_type_invariant(other);
            if self.text@ == other.text@ {
                AccountId::lemma_view_is_identity(self.id, other.id);
            }
        }
        self.text == other.text
    }
}

impl Clone for Address {
    fn clone(&self) -> (r: Self)
        ensures
            r == *self,
    {
        proof {
            use_type_invariant(self);
        }
        Address { text: self.text.clone(), id: self.id }
    }
}

/// What an account holds, in the chain's smallest unit.
#[derive(Clone, Copy, Debug, PartialEq, Eq, Structural)]
pub struct Balance {
    pub free: u128,
    pub reserved: u128,
}

impl Balance {
    pub fn new() -> (r: Self)
        ensures
            r.free == 0,
            r.reserved == 0,
    {
        Self { free: 0, reserved: 0 }
    }

    pub open spec fn spec_total(self) -> nat {
        (self.free + self.reserved) as nat
    }

    pub fn total(&self) -> (r: u128)
        requires
            self.spec_total() <= u128::MAX,
        ensures
            r == self.spec_total(),
    {
        self.free + self.reserved
    }

    /// Free and reserved together, or nothing where the sum does not fit.
    pub fn checked_total(&self) -> (r: Option<u128>)
        ensures
            r == if self.spec_total() <= u128::MAX {
                Some(self.spec_total() as u128)
            } else {
                None
            },
    {
        self.free.checked_add(self.reserved)
    }

    pub fn free_human(&self, runtime: SupportedRelayRuntime) -> (r: String)
        ensures
            r@ == amount_text(self.free as nat, runtime.spec_decimals() as nat),
    {
        amount_human(self.free, runtime.decimals() as u32)
    }

    pub fn reserved_human(&self, runtime: SupportedRelayRuntime) -> (r: String)
        ensures
            r@ == amount_text(self.reserved as nat, runtime.spec_decimals() as nat),
    {
        amount_human(self.reserved, runtime.decimals() as u32)
    }

    pub fn total_human(&self, runtime: SupportedRelayRuntime) -> (r: String)
        requires
            self.spec_total() <= u128::MAX,
        ensures
            r@ == amount_text(self.spec_total(), runtime.spec_decimals() as nat),
    {
        amount_human(self.free + self.reserved, runtime.decimals() as u32)
    }
}

/// A followed beneficiary.
#[derive(Debug, PartialEq, Eq)]
pub struct Account {
    pub id: u32,
    /// SS58 address of the account.
    pub address: Address,
    /// Display name resolved on the people chain.
    pub identity: Option<String>,
    /// Reserved: keeps the account from being claimed for.
    pub disabled: bool,
    /// Ids of the child bounties that name this account as beneficiary.
    pub child_bounty_ids: BTreeSet<u32>,
    pub balance: Balance,
}

/// An account as contracts speak of it: its linked bounty ids as a set.
pub struct AccountView {
    pub id: u32,
    pub address: Address,
    pub identity: Option<String>,
    pub disabled: bool,
    pub child_bounty_ids: Set<u32>,
    pub balance: Balance,
}

impl View for Account {
    type V = AccountView;

    open spec fn view(&self) -> AccountView {
        AccountView {
            id: self.id,
            address: self.address,
            identity: self.identity,
            disabled: self.disabled,
            child_bounty_ids: self.child_bounty_ids@,
            balance: self.balance,
        }
    }
}

impl Clone for Account {
    fn clone(&self) -> (r: Self)
        ensures
            r@ == self@,
    {
        Account {
            id: self.id,
            address: self.address.clone(),
            identity: match &self.identity {
                Some(name) => Some(name.clone()),
                None => None,
            },
            disabled: self.disabled,
            child_bounty_ids: self.child_bounty_ids.clone(),
            balance: self.balance,
        }
    }
}

/// The accounts of a list as contracts speak of them.
pub open spec fn views(accounts: Seq<Account>) -> Seq<AccountView> {
    accounts.map_values(|a: Account| a@)
}

/// The accounts that a list of followed accounts names, in its order.
pub open spec fn following(accounts: Seq<AccountView>) -> Seq<AccountId> {
    accounts.map_values(|a: AccountView| a.address.id())
}

/// The largest id in a list of accounts; zero for the empty list.
pub open spec fn max_id(accounts: Seq<AccountView>) -> nat
    decreases accounts.len(),
{
    if accounts.len() == 0 {
        0
    } else {
        let rest = max_id(accounts.drop_last());
        if accounts.last().id > rest {
            accounts.last().id as nat
        } else {
            rest
        }
    }
}

/// Whether an account with this address text is in the list.
pub open spec fn follows(accounts: Seq<AccountView>, address: Seq<char>) -> bool {
    exists|i: int| 0 <= i < accounts.len() && (#[trigger] accounts[i]).address.text() == address
}

/// A copy of the accounts.
pub fn clone_accounts(accounts: &Vec<Account>) -> (r: Vec<Account>)
    ensures
        views(r@) == views(accounts@),
{
    let mut out: Vec<Account> = Vec::new();
    let mut i: usize = 0;
    while i < accounts.len()
        invariant
            i <= accounts.len(),
            out@.len() == i,
            forall|j: int| 0 <= j < i ==> (#[trigger] out@[j])@ == accounts@[j]@,
        decreases accounts.len() - i,
    {
        out.push(accounts[i].clone());
        i += 1;
    }
    assert(views(out@) =~= views(accounts@));
    out
}

/// The accounts that the followed accounts name.
pub fn following_of(accounts: &Vec<Account>) -> (r: Vec<AccountId>)
    ensures
        r@ == following(views(accounts@)),
{
    let mut out: Vec<AccountId> = Vec::new();
    let mut i: usize = 0;
    while i < accounts.len()
        invariant
            i <= accounts.len(),
            out@.len() == i,
            forall|j: int| 0 <= j < i ==> (#[trigger] out@[j]) == accounts@[j].address.id(),
        decreases accounts.len() - i,
    {
        out.push(accounts[i].address.account_id());
        i += 1;
    }
    assert(out@ =~= following(views(accounts@)));
    out
}

/// The largest id among the accounts; zero where there are none.
pub fn largest_id(accounts: &Vec<Account>) -> (r: u32)
    ensures
        r == max_id(views(accounts@)),
{
    let mut best: u32 = 0;
    let mut i: usize = 0;
    while i < accounts.len()
        invariant
            i <= accounts.len(),
            best == max_id(views(accounts@).take(i as int)),
        decreases accounts.len() - i,
    {
        proof {
            let all = views(accounts@);
            assert(all.take(i + 1).drop_last() =~= all.take(i as int));
        }
        if accounts[i].id > best {
            best = accounts[i].id;
        }
        i += 1;
    }
    proof {
        let all = views(accounts@);
        assert(all.take(all.len() as int) =~= all);
    }
    best
}

/// Whether an account with this address text is followed.
pub fn is_following(accounts: &Vec<Account>, address: &Address) -> (r: bool)
    ensures
        r == follows(views(accounts@), address.text()),
{
    let mut i: usize = 0;
    while i < accounts.len()
        invariant
            i <= accounts.len(),
            forall|j: int| 0 <= j < i ==> (#[trigger] views(accounts@)[j]).address.text() != address.text(),
        decreases accounts.len() - i,
    {
        if accounts[i].address.same_text(address) {
            assert(views(accounts@)[i as int].address.text() == address.text());
            return true;
        }
        i += 1;
    }
    false
}

impl Account {
    pub fn to_compact_string(&self) -> (r: String)
        ensures
            r@ == compact_or_whole(ss58_encode(self.address.id()@)),
    {
        self.address.account_id().to_compact_string()
    }
}

} // verus!
