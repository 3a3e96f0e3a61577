use vstd::prelude::*;
use crate::types::accounts::{ss58_encode, AccountId};

verus! {

/// What an identicon is drawn from and what a click on it copies.
#[derive(Clone, Debug, PartialEq, Eq)]
pub struct IdenticonView {
    /// The bytes of the public key that the glyph is drawn from.
    pub key: [u8; 32],
    /// The side of the glyph in pixels.
    pub size: u16,
    /// The address that a click copies to the clipboard.
    pub address: String,
}

pub fn identicon(account: &AccountId, size: u16) -> (r: IdenticonView)
    ensures
        r.key@ == account@,
        r.size == size,
        r.address@ == ss58_encode(account@),
{
    IdenticonView { key: account.0, size, address: account.to_ss58() }
}

} // verus!
