use vstd::prelude::*;
use vstd::string::{StringExecFns, StringSliceAdditionalSpecFns};
use vstd::slice::slice_subrange;
use crate::types::accounts::{compact_or_whole, ss58_decode, ss58_encode, AccountId};

verus! {

/// How far the connection to a wallet extension has come.
#[derive(Clone, Debug, PartialEq, Eq)]
pub enum ExtensionStatus {
    /// Nothing was asked of an extension yet.
    Initialized,
    /// The named extension is being asked for its accounts.
    Connecting(String),
    /// The extension answered with at least one enabled account.
    Connected,
    /// The chosen signer is among the extension's accounts.
    Ready,
}

/// An account that a wallet extension exposes.
#[derive(Debug, PartialEq, Eq)]
pub struct ExtensionAccount {
    pub name: String,
    /// Name of the extension that holds the account.
    pub source: String,
    /// The signature scheme, such as "sr25519" or "ed25519".
    pub account_type: String,
    /// SS58 address of the account.
    pub address: String,
}

impl Clone for ExtensionAccount {
    fn clone(&self) -> (r: Self)
        ensures
            r == *self,
    {
        ExtensionAccount {
            name: self.name.clone(),
            source: self.source.clone(),
            account_type: self.account_type.clone(),
            address: self.address.clone(),
        }
    }
}

impl ExtensionAccount {
    /// Whether two accounts hold the same texts.
    pub open spec fn spec_same(self, other: ExtensionAccount) -> bool {
        &&& self.name@ == other.name@
        &&& self.source@ == other.source@
        &&& self.account_type@ == other.account_type@
        &&& self.address@ == other.address@
    }

    pub fn same(&self, other: &ExtensionAccount) -> (r: bool)
        ensures
            r == self.spec_same(*other),
    {
        self.name == other.name && self.source == other.source && self.account_type
            == other.account_type && self.address == other.address
    }

    /// The address shortened for display; empty where it names no account.
    pub fn to_compact_string(&self) -> (r: String)
        ensures
            r@ == match ss58_decode(self.address@) {
                Some(id) => compact_or_whole(ss58_encode(id)),
                None => Seq::<char>::empty(),
            },
    {
        match AccountId::from_ss58(self.address.as_str()) {
            Some(account) => account.to_compact_string(),
            None => String::new(),
        }
    }
}

/// Progress of the wallet connection, and the signer once chosen.
#[derive(Clone, Debug, PartialEq, Eq)]
pub struct ExtensionState {
    pub signer: Option<ExtensionAccount>,
    pub status: ExtensionStatus,
}

impl ExtensionState {
    pub fn new(signer: Option<ExtensionAccount>) -> (r: Self)
        ensures
            r.signer == signer,
            r.status == ExtensionStatus::Initialized,
    {
        Self { signer, status: ExtensionStatus::Initialized }
    }

    pub fn is_connected(&self) -> (r: bool)
        ensures
            r == (self.status is Connected),
    {
        match self.status {
            ExtensionStatus::Connected => true,
            _ => false,
        }
    }

    pub fn is_ready(&self) -> (r: bool)
        ensures
            r == (self.status is Ready),
    {
        match self.status {
            ExtensionStatus::Ready => true,
            _ => false,
        }
    }

    pub fn is_connected_or_ready(&self) -> (r: bool)
        ensures
            r == (self.status is Connected || self.status is Ready),
    {
        self.is_connected() || self.is_ready()
    }
}

/// A wallet extension the application knows of.
#[derive(Clone, Debug, PartialEq, Eq)]
pub struct Extension {
    pub name: String,
    pub description: String,
    /// Whether the browser reports the extension as installed.
    pub installed: bool,
}

impl Extension {
    pub fn with_name(name: String, description: String) -> (r: Self)
        ensures
            r.name == name,
            r.description == description,
            !r.installed,
    {
        Self { name, description, installed: false }
    }

    pub fn to_string(&self) -> (r: String)
        ensures
            r@ == self.name@,
    {
        self.name.clone()
    }
}

/// Names and descriptions of the known wallets, in the order shown.
pub open spec fn supported_wallets() -> Seq<(Seq<char>, Seq<char>)> {
    seq![
        ("polkadot-js"@, "Polkadot JS"@),
        ("talisman"@, "Talisman JS"@),
        ("subwallet-js"@, "Subwallet JS"@),
        ("polkagate"@, "Polkagate JS"@),
    ]
}

pub fn extensions_supported() -> (r: Vec<Extension>)
    ensures
        r@.len() == supported_wallets().len(),
        forall|i: int|
            0 <= i < r@.len() ==> (#[trigger] r@[i]).name@ == supported_wallets()[i].0
                && r@[i].description@ == supported_wallets()[i].1 && !r@[i].installed,
{
    let mut out = Vec::new();
    out.push(Extension::with_name(String::from_str("polkadot-js"), String::from_str("Polkadot JS")));
    out.push(Extension::with_name(String::from_str("talisman"), String::from_str("Talisman JS")));
    out.push(
        Extension::with_name(String::from_str("subwallet-js"), String::from_str("Subwallet JS")),
    );
    out.push(Extension::with_name(String::from_str("polkagate"), String::from_str("Polkagate JS")));
    out
}

/// The texts of a list of strings.
pub open spec fn texts(names: Seq<String>) -> Seq<Seq<char>> {
    names.map_values(|s: String| s@)
}

pub fn contains_text(names: &Vec<String>, name: &String) -> (r: bool)
    ensures
        r == texts(names@).contains(name@),
{
    let mut i: usize = 0;
    while i < names.len()
        invariant
            i <= names.len(),
            forall|j: int| 0 <= j < i ==> texts(names@)[j] != name@,
        decreases names.len() - i,
    {
        if names[i] == *name {
            assert(texts(names@)[i as int] == name@);
            return true;
        }
        i += 1;
    }
    false
}

/// Marks as installed every extension whose name the browser listed.
pub fn mark_installed(extensions: Vec<Extension>, installed: &Vec<String>) -> (r: Vec<Extension>)
    ensures
        r@.len() == extensions@.len(),
        forall|i: int|
            0 <= i < r@.len() ==> (#[trigger] r@[i]).name == extensions@[i].name
                && r@[i].description == extensions@[i].description && r@[i].installed == (
            extensions@[i].installed || texts(installed@).contains(extensions@[i].name@)),
{
    let mut out: Vec<Extension> = Vec::new();
    let ghost before = extensions@;
    for extension in it: extensions
        invariant
            it.seq() == before,
            out@.len() == it.index(),
            forall|i: int|
                0 <= i < out@.len() ==> (#[trigger] out@[i]).name == before[i].name
                    && out@[i].description == before[i].description && out@[i].installed == (
                before[i].installed || texts(installed@).contains(before[i].name@)),
    {
        let listed = contains_text(installed, &extension.name);
        out.push(
            Extension {
                name: extension.name,
                description: extension.description,
                installed: extension.installed || listed,
            },
        );
    }
    out
}

/// The list of texts that a JSON text spells, where it spells one.
pub uninterp spec fn json_string_list(text: Seq<char>) -> Option<Seq<Seq<char>>>;

/// `from_str` of serde_json for a list of strings: the list that the
/// text spells, or nothing where it spells none.
#[verifier::external_body]
fn parse_string_list(text: &str) -> (r: Option<Vec<String>>)
    ensures
        json_string_list(text@) == match r {
            Some(list) => Some(texts(list@)),
            None => None,
        },
{
    serde_json::from_str::<Vec<String>>(text).ok()
}

/// The known wallets, those marked as installed that the browser's
/// answer lists. Nothing comes back where the answer is no JSON list of
/// names.
pub fn get_extensions(answer: &str) -> (r: Option<Vec<Extension>>)
    ensures
        r is Some <==> json_string_list(answer@) is Some,
        r matches Some(list) ==> {
            let installed = json_string_list(answer@)->0;
            &&& list@.len() == supported_wallets().len()
            &&& forall|i: int|
                0 <= i < list@.len() ==> (#[trigger] list@[i]).name@ == supported_wallets()[i].0
                    && list@[i].description@ == supported_wallets()[i].1 && list@[i].installed
                    == installed.contains(supported_wallets()[i].0)
        },
{
    match parse_string_list(answer) {
        Some(installed) => Some(mark_installed(extensions_supported(), &installed)),
        None => None,
    }
}

/// The accounts that come from the given wallet, in their order.
pub open spec fn from_source(accounts: Seq<ExtensionAccount>, source: Seq<char>) -> Seq<
    ExtensionAccount,
> {
    accounts.filter(|a: ExtensionAccount| a.source@ == source)
}

pub fn accounts_from_source(accounts: Vec<ExtensionAccount>, source: &String) -> (r: Vec<
    ExtensionAccount,
>)
    ensures
        r@ == from_source(accounts@, source@),
{
    let mut out: Vec<ExtensionAccount> = Vec::new();
    let ghost before = accounts@;
    let ghost pred = |a: ExtensionAccount| a.source@ == source@;
    proof {
        reveal(Seq::filter);
        assert(before.take(0) =~= Seq::empty());
    }
    for account in it: accounts
        invariant
            it.seq() == before,
            pred == |a: ExtensionAccount| a.source@ == source@,
            out@ == before.take(it.index()).filter(pred),
    {
        proof {
            let i = it.index();
            reveal(Seq::filter);
            assert(before.take(i + 1).drop_last() =~= before.take(i));
        }
        if account.source == *source {
            out.push(account);
        }
    }
    proof {
        assert(before.take(before.len() as int) =~= before);
    }
    out
}

/// Whether the list holds an account with the same texts.
pub open spec fn lists_account(accounts: Seq<ExtensionAccount>, account: ExtensionAccount) -> bool {
    exists|i: int| 0 <= i < accounts.len() && (#[trigger] accounts[i]).spec_same(account)
}

pub fn contains_account(accounts: &Vec<ExtensionAccount>, account: &ExtensionAccount) -> (r: bool)
    ensures
        r == lists_account(accounts@, *account),
{
    let mut i: usize = 0;
    while i < accounts.len()
        invariant
            i <= accounts.len(),
            forall|j: int| 0 <= j < i ==> !(#[trigger] accounts@[j]).spec_same(*account),
        decreases accounts.len() - i,
    {
        if accounts[i].same(account) {
            return true;
        }
        i += 1;
    }
    false
}

/// The lower-case hexadecimal digit of a value below sixteen.
pub open spec fn hex_digit(v: int) -> char {
    if v == 0 {
        '0'
    } else if v == 1 {
        '1'
    } else if v == 2 {
        '2'
    } else if v == 3 {
        '3'
    } else if v == 4 {
        '4'
    } else if v == 5 {
        '5'
    } else if v == 6 {
        '6'
    } else if v == 7 {
        '7'
    } else if v == 8 {
        '8'
    } else if v == 9 {
        '9'
    } else if v == 10 {
        'a'
    } else if v == 11 {
        'b'
    } else if v == 12 {
        'c'
    } else if v == 13 {
        'd'
    } else if v == 14 {
        'e'
    } else {
        'f'
    }
}

/// Bytes in hexadecimal: two lower-case digits each, high digit first.
pub open spec fn hex_text(bytes: Seq<u8>) -> Seq<char>
    decreases bytes.len(),
{
    if bytes.len() == 0 {
        Seq::empty()
    } else {
        hex_text(bytes.drop_last()) + seq![
            hex_digit(bytes.last() as int / 16),
            hex_digit(bytes.last() as int % 16),
        ]
    }
}

/// The value of a hexadecimal digit given as an ASCII byte, in either case.
pub open spec fn hex_value(c: u8) -> Option<int> {
    if 0x30 <= c <= 0x39 {
        Some(c - 0x30)
    } else if 0x41 <= c <= 0x46 {
        Some(c - 0x41 + 10)
    } else if 0x61 <= c <= 0x66 {
        Some(c - 0x61 + 10)
    } else {
        None
    }
}

/// The bytes that a hexadecimal text spells, where it has an even number
/// of characters and all of them are hexadecimal digits.
pub open spec fn hex_bytes(text: Seq<u8>) -> Option<Seq<u8>>
    decreases text.len(),
{
    if text.len() == 0 {
        Some(Seq::empty())
    } else if text.len() % 2 != 0 {
        None
    } else {
        let n = text.len() as int;
        match (hex_bytes(text.subrange(0, n - 2)), hex_value(text[n - 2]), hex_value(text[n - 1])) {
            (Some(head), Some(high), Some(low)) => Some(head.push((high * 16 + low) as u8)),
            _ => None,
        }
    }
}

/// `encode` of hex: the bytes in lower-case hexadecimal.
#[verifier::external_body]
fn hex_encode(bytes: &[u8]) -> (r: String)
    ensures
        r@ == hex_text(bytes@),
{
    hex::encode(bytes)
}

/// `decode` of hex: the bytes that the text spells, or nothing where its
/// length is odd or a character is no hexadecimal digit.
#[verifier::external_body]
fn hex_decode(text: &[u8]) -> (r: Option<Vec<u8>>)
    ensures
        hex_bytes(text@) == match r {
            Some(bytes) => Some(bytes@),
            None => None,
        },
{
    hex::decode(text).ok()
}

/// Bytes as a hexadecimal text behind `0x`.
pub open spec fn prefixed_hex_text(bytes: Seq<u8>) -> Seq<char> {
    "0x"@ + hex_text(bytes)
}

pub fn to_hex(bytes: &[u8]) -> (r: String)
    ensures
        r@ == prefixed_hex_text(bytes@),
{
    let mut out = String::from_str("0x");
    let digits = hex_encode(bytes);
    out.append(digits.as_str());
    out
}

/// The signature in a wallet's answer: the hexadecimal text after its
/// first two bytes, which hold the `0x` mark.
pub open spec fn signature_bytes(answer: Seq<u8>) -> Option<Seq<u8>> {
    if answer.len() < 2 {
        None
    } else {
        hex_bytes(answer.subrange(2, answer.len() as int))
    }
}

/// Decodes the signature that a wallet extension answered with. Nothing
/// comes back where the answer is shorter than its mark or is not
/// hexadecimal after it.
pub fn decode_signature(answer: &str) -> (r: Option<Vec<u8>>)
    ensures
        signature_bytes(answer.spec_bytes()) == match r {
            Some(bytes) => Some(bytes@),
            None => None,
        },
{
    let bytes = answer.as_bytes();
    if bytes.len() < 2 {
        None
    } else {
        hex_decode(slice_subrange(bytes, 2, bytes.len()))
    }
}

} // verus!
