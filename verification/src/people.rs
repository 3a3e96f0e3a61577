use vstd::prelude::*;
use vstd::string::StringExecFns;
use vstd::utf8::{decode_utf8, valid_utf8};
use crate::errors::ClaimitError;
use crate::runtimes::utils::try_str;
use crate::types::accounts::AccountId;

verus! {

/// How many times the resolver follows an account to its parent.
pub const MAX_DEPTH: u8 = 4;

/// A field of an identity on the people chain.
#[derive(Clone, Debug, PartialEq, Eq)]
pub enum IdentityData {
    /// No value.
    Empty,
    /// Up to 32 raw bytes: the text itself.
    Raw(Vec<u8>),
    /// A hash of the value, which does not tell the value.
    Hashed,
}

/// The text of an identity field: the raw bytes read as UTF-8, and three
/// question marks where the field holds no raw bytes.
pub open spec fn identity_text(data: IdentityData) -> Option<Seq<char>> {
    match data {
        IdentityData::Raw(bytes) => if valid_utf8(bytes@) {
            Some(decode_utf8(bytes@))
        } else {
            None
        },
        _ => Some("???"@),
    }
}

/// Reads an identity field as text. Raw bytes that are not UTF-8 are an
/// error.
pub fn parse_identity_data(data: IdentityData) -> (r: Result<String, ClaimitError>)
    ensures
        match r {
            Ok(text) => identity_text(data) == Some(text@),
            Err(error) => identity_text(data) is None && (error matches ClaimitError::Other(
                message,
            ) && message@ == "Data not utf-8"@),
        },
{
    match data {
        IdentityData::Raw(bytes) => match try_str(bytes) {
            Some(text) => Ok(text),
            None => Err(ClaimitError::other("Data not utf-8")),
        },
        _ => Ok(String::from_str("???")),
    }
}

/// A display name: the name alone, or the parent's name, a slash and the
/// name of the sub-account.
pub open spec fn display_name(name: Seq<char>, sub_account: Option<String>) -> Seq<char> {
    match sub_account {
        Some(child) => name + "/"@ + child@,
        None => name,
    }
}

fn join_names(name: String, sub_account: Option<String>) -> (r: String)
    ensures
        r@ == display_name(name@, sub_account),
{
    match sub_account {
        Some(child) => {
            let mut out = name;
            out.append("/");
            out.append(child.as_str());
            out
        },
        None => name,
    }
}

/// What the resolver wants to read from the people chain.
#[derive(Clone, Debug, PartialEq, Eq)]
pub enum Lookup {
    /// The identity registered for an account.
    IdentityOf(AccountId),
    /// The parent of an account, and the account's name under it.
    SuperOf(AccountId),
}

/// How a step of the resolver ends.
#[derive(Clone, Debug, PartialEq, Eq)]
pub enum Resolved {
    /// More is to be read.
    Ask(Resolver, Lookup),
    /// The display name, or none where the account has no identity.
    Done(Option<String>),
}

/// The search for the display name of an account: the account looked at,
/// the name of the sub-account that led to it, and how many parents were
/// followed.
#[derive(Clone, Debug, PartialEq, Eq)]
pub struct Resolver {
    pub account: AccountId,
    pub sub_account_name: Option<String>,
    pub depth: u8,
}

impl Resolver {
    /// Starts the search at an account: its identity is read first.
    pub fn start(account: AccountId) -> (r: (Resolver, Lookup))
        ensures
            r.0 == (Resolver { account, sub_account_name: None, depth: 0 }),
            r.1 == Lookup::IdentityOf(account),
    {
        (Resolver { account, sub_account_name: None, depth: 0 }, Lookup::IdentityOf(account))
    }

    /// Takes what was read of the account's identity: its display field
    /// if it has one. With an identity the search ends with the display
    /// name; without, the account's parent is read next.
    pub fn on_identity(self, display: Option<IdentityData>) -> (r: Result<Resolved, ClaimitError>)
        ensures
            match display {
                Some(data) => match identity_text(data) {
                    Some(name) => r matches Ok(Resolved::Done(Some(text))) && text@
                        == display_name(name, self.sub_account_name),
                    None => r is Err,
                },
                None => r == Ok::<Resolved, ClaimitError>(
                    Resolved::Ask(self, Lookup::SuperOf(self.account)),
                ),
            },
    {
        match display {
            Some(data) => match parse_identity_data(data) {
                Ok(name) => Ok(Resolved::Done(Some(join_names(name, self.sub_account_name)))),
                Err(error) => Err(error),
            },
            None => {
                let account = self.account;
                Ok(Resolved::Ask(self, Lookup::SuperOf(account)))
            },
        }
    }

    /// Takes what was read of the account's parent: the parent and the
    /// account's name under it, if it has one. With a parent the search
    /// goes on at the parent, unless `MAX_DEPTH` parents were followed
    /// already; without, the account has no identity.
    pub fn on_super(self, parent: Option<(AccountId, IdentityData)>) -> (r: Result<
        Resolved,
        ClaimitError,
    >)
        ensures
            match parent {
                Some((account, data)) => if self.depth >= MAX_DEPTH {
                    r == Ok::<Resolved, ClaimitError>(Resolved::Done(None))
                } else {
                    match identity_text(data) {
                        Some(name) => r matches Ok(Resolved::Ask(next, lookup)) && (next.account
                            == account && next.depth == self.depth + 1 && lookup
                            == Lookup::IdentityOf(account) && (next.sub_account_name matches Some(
                            text,
                        ) && text@ == name)),
                        None => r is Err,
                    }
                },
                None => r == Ok::<Resolved, ClaimitError>(Resolved::Done(None)),
            },
    {
        match parent {
            Some((account, data)) => {
                if self.depth >= MAX_DEPTH {
                    return Ok(Resolved::Done(None));
                }
                match parse_identity_data(data) {
                    Ok(name) => Ok(
                        Resolved::Ask(
                            Resolver {
                                account,
                                sub_account_name: Some(name),
                                depth: self.depth + 1,
                            },
                            Lookup::IdentityOf(account),
                        ),
                    ),
                    Err(error) => Err(error),
                }
            },
            None => Ok(Resolved::Done(None)),
        }
    }
}

} // verus!
