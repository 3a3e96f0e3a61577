use vstd::prelude::*;
use vstd::string::StringExecFns;
use vstd::utf8::{decode_utf8, valid_utf8};
use num_format::{Locale, ToFormattedString};

verus! {

/// The number that four bytes spell, least significant byte first.
pub open spec fn u32_from_le(b0: u8, b1: u8, b2: u8, b3: u8) -> int {
    b0 + b1 * 0x100 + b2 * 0x1_0000 + b3 * 0x100_0000
}

/// The child bounty id at the end of a raw storage key: its last four
/// bytes, least significant first.
pub open spec fn storage_key_id(key: Seq<u8>) -> int
    recommends
        key.len() >= 4,
{
    let n = key.len() as int;
    u32_from_le(key[n - 4], key[n - 3], key[n - 2], key[n - 1])
}

pub fn get_child_bounty_id_from_storage_key(key: Vec<u8>) -> (id: u32)
    requires
        key@.len() >= 4,
    ensures
        id == storage_key_id(key@),
{
    let n = key.len();
    let b0: u32 = key[n - 4] as u32;
    let b1: u32 = key[n - 3] as u32;
    let b2: u32 = key[n - 2] as u32;
    let b3: u32 = key[n - 1] as u32;
    b0 + b1 * 0x100 + b2 * 0x1_0000 + b3 * 0x100_0000
}

/// `String::from_utf8` of std: the text that the bytes encode, if they are
/// valid UTF-8, and nothing otherwise.
#[verifier::external_body]
fn string_from_utf8(bytes: Vec<u8>) -> (r: Option<String>)
    ensures
        r is Some <==> valid_utf8(bytes@),
        r matches Some(s) ==> s@ == decode_utf8(bytes@),
{
    String::from_utf8(bytes).ok()
}

/// The text that `bytes` encode, or nothing where they are not UTF-8.
pub fn try_str(bytes: Vec<u8>) -> (r: Option<String>)
    ensures
        r is Some <==> valid_utf8(bytes@),
        r matches Some(s) ==> s@ == decode_utf8(bytes@),
{
    string_from_utf8(bytes)
}

/// The text that `bytes` encode. Chain data is expected to be UTF-8.
pub fn str(bytes: Vec<u8>) -> (r: String)
    requires
        valid_utf8(bytes@),
    ensures
        r@ == decode_utf8(bytes@),
{
    match string_from_utf8(bytes) {
        Some(s) => s,
        None => String::new(),
    }
}

/// A long address shortened to its first and last four characters.
pub open spec fn compact_text(s: Seq<char>) -> Seq<char>
    recommends
        s.len() >= 8,
{
    s.subrange(0, 4) + "..."@ + s.subrange(s.len() - 4, s.len() as int)
}

pub fn compact(address: &str) -> (r: String)
    requires
        address@.len() >= 8,
    ensures
        r@ == compact_text(address@),
        r@.len() == 11,
{
    let n = address.unicode_len();
    let head = address.substring_char(0, 4);
    let tail = address.substring_char(n - 4, n);
    let mut out = String::from_str(head);
    out.append("...");
    out.append(tail);
    proof {
        reveal_strlit("...");
    }
    out
}

/// Ten to the power `e`.
pub open spec fn pow10(e: nat) -> nat
    decreases e,
{
    if e == 0 {
        1
    } else {
        10 * pow10((e - 1) as nat)
    }
}

/// The character of a decimal digit.
pub open spec fn digit_char(d: nat) -> char
    recommends
        d < 10,
{
    if d == 0 {
        '0'
    } else if d == 1 {
        '1'
    } else if d == 2 {
        '2'
    } else if d == 3 {
        '3'
    } else if d == 4 {
        '4'
    } else if d == 5 {
        '5'
    } else if d == 6 {
        '6'
    } else if d == 7 {
        '7'
    } else if d == 8 {
        '8'
    } else {
        '9'
    }
}

/// A number in decimal, without sign, padding or grouping.
pub open spec fn decimal_text(n: nat) -> Seq<char>
    decreases n,
{
    if n < 10 {
        seq![digit_char(n)]
    } else {
        decimal_text(n / 10).push(digit_char(n % 10))
    }
}

/// A number in decimal with a comma before every group of three digits,
/// counted from the right.
pub open spec fn grouped_text(n: nat) -> Seq<char>
    decreases n,
{
    if n < 1000 {
        decimal_text(n)
    } else {
        grouped_text(n / 1000) + seq![
            ',',
            digit_char(n % 1000 / 100),
            digit_char(n % 100 / 10),
            digit_char(n % 10),
        ]
    }
}

/// An amount in the chain's smallest unit, shown in whole units: the
/// whole part grouped by thousands, a point, and the first two decimals
/// as a plain number (so `5` stands for `.05`).
pub open spec fn amount_text(value: nat, decimals: nat) -> Seq<char>
    recommends
        decimals >= 2,
{
    grouped_text(value / pow10(decimals)) + seq!['.'] + decimal_text(
        value % pow10(decimals) / pow10((decimals - 2) as nat),
    )
}

fn digit_str(d: u8) -> (r: &'static str)
    requires
        d < 10,
    ensures
        r@ == seq![digit_char(d as nat)],
{
    proof {
        reveal_strlit("0");
        reveal_strlit("1");
        reveal_strlit("2");
        reveal_strlit("3");
        reveal_strlit("4");
        reveal_strlit("5");
        reveal_strlit("6");
        reveal_strlit("7");
        reveal_strlit("8");
        reveal_strlit("9");
    }
    let r = if d == 0 {
        "0"
    } else if d == 1 {
        "1"
    } else if d == 2 {
        "2"
    } else if d == 3 {
        "3"
    } else if d == 4 {
        "4"
    } else if d == 5 {
        "5"
    } else if d == 6 {
        "6"
    } else if d == 7 {
        "7"
    } else if d == 8 {
        "8"
    } else {
        "9"
    };
    assert(r@ =~= seq![digit_char(d as nat)]);
    r
}

/// The decimal text of a number.
pub fn decimal(n: u128) -> (r: String)
    ensures
        r@ == decimal_text(n as nat),
    decreases n,
{
    if n < 10 {
        String::from_str(digit_str(n as u8))
    } else {
        let mut out = decimal(n / 10);
        out.append(digit_str((n % 10) as u8));
        out
    }
}

/// `to_formatted_string` of num_format with the English locale: the
/// decimal digits of the number, a comma between groups of three.
#[verifier::external_body]
fn group_thousands(n: u128) -> (r: String)
    ensures
        r@ == grouped_text(n as nat),
{
    n.to_formatted_string(&Locale::en)
}

/// A number with its thousands grouped, as block numbers and amounts are
/// shown.
pub fn grouped(n: u128) -> (r: String)
    ensures
        r@ == grouped_text(n as nat),
{
    group_thousands(n)
}

/// Ten to the power `e`, for the powers that fit.
pub fn pow10_u128(e: u32) -> (r: u128)
    requires
        e <= 38,
    ensures
        r == pow10(e as nat),
{
    let mut r: u128 = 1;
    let mut i: u32 = 0;
    proof {
        lemma_pow10_monotonic(0, 38);
    }
    while i < e
        invariant
            i <= e <= 38,
            r == pow10(i as nat),
            r <= pow10(38),
        decreases e - i,
    {
        proof {
            lemma_pow10_monotonic((i + 1) as nat, 38);
            lemma_pow10_38();
        }
        r = r * 10;
        i += 1;
    }
    r
}

pub proof fn lemma_pow10_monotonic(a: nat, b: nat)
    requires
        a <= b,
    ensures
        pow10(a) <= pow10(b),
        pow10(a) >= 1,
    decreases b,
{
    if a < b {
        lemma_pow10_monotonic(a, (b - 1) as nat);
    } else if a > 0 {
        lemma_pow10_monotonic((a - 1) as nat, (a - 1) as nat);
    }
}

pub proof fn lemma_pow10_38()
    ensures
        pow10(38) == 100_000_000_000_000_000_000_000_000_000_000_000_000nat,
{
    reveal_with_fuel(pow10, 39);
}

pub fn amount_human(value: u128, decimals: u32) -> (r: String)
    requires
        2 <= decimals <= 38,
    ensures
        r@ == amount_text(value as nat, decimals as nat),
{
    let base = pow10_u128(decimals);
    let cents = pow10_u128(decimals - 2);
    proof {
        lemma_pow10_monotonic(decimals as nat, decimals as nat);
        lemma_pow10_monotonic((decimals - 2) as nat, (decimals - 2) as nat);
    }
    let n = value / base;
    let r = (value % base) / cents;
    let mut out = grouped(n);
    out.append(".");
    let digits = decimal(r);
    out.append(digits.as_str());
    proof {
        reveal_strlit(".");
        assert("."@ =~= seq!['.']);
    }
    out
}

/// What `to_lowercase` of std makes of a text: every character replaced
/// by its lower-case mapping in Unicode.
pub uninterp spec fn lowercase_text(text: Seq<char>) -> Seq<char>;

/// `str::to_lowercase` of std.
#[verifier::external_body]
pub(crate) fn lowercase(text: &str) -> (r: String)
    ensures
        r@ == lowercase_text(text@),
{
    text.to_lowercase()
}

/// Whether a list ascends without repeating a value.
pub open spec fn ascending(list: Seq<u32>) -> bool {
    forall|i: int, j: int| 0 <= i < j < list.len() ==> list[i] < list[j]
}

/// Puts a value into an ascending list, unless the list holds it.
pub fn insert_ascending(list: &mut Vec<u32>, value: u32)
    requires
        ascending(old(list)@),
    ensures
        ascending(final(list)@),
        final(list)@.to_set() == old(list)@.to_set().insert(value),
{
    let ghost before = list@;
    let mut i: usize = 0;
    while i < list.len() && list[i] < value
        invariant
            i <= list.len(),
            list@ == before,
            forall|j: int| 0 <= j < i ==> list@[j] < value,
        decreases list.len() - i,
    {
        i += 1;
    }
    if i < list.len() && list[i] == value {
        proof {
            assert(list@.to_set() =~= before.to_set().insert(value));
        }
    } else {
        list.insert(i, value);
        proof {
            let after = list@;
            assert(after == before.insert(i as int, value));
            assert forall|a: int, b: int| 0 <= a < b < after.len() implies after[a] < after[b] by {
                if b < i {
                } else if b == i {
                } else if a < i {
                    assert(after[b] == before[b - 1]);
                } else if a == i {
                    assert(after[b] == before[b - 1]);
                    assert(before[i as int] <= before[b - 1]);
                } else {
                    assert(after[a] == before[a - 1]);
                    assert(after[b] == before[b - 1]);
                }
            }
            assert forall|x: u32| after.to_set().contains(x) == before.to_set().insert(
                value,
            ).contains(x) by {
                if after.contains(x) {
                    let k = choose|k: int| 0 <= k < after.len() && after[k] == x;
                    if k < i {
                        assert(before[k] == x);
                    } else if k > i {
                        assert(before[k - 1] == x);
                    }
                }
                if before.contains(x) {
                    let k = choose|k: int| 0 <= k < before.len() && before[k] == x;
                    if k < i {
                        assert(after[k] == x);
                    } else {
                        assert(after[k + 1] == x);
                    }
                }
                if x == value {
                    assert(after[i as int] == x);
                }
            }
            assert(after.to_set() =~= before.to_set().insert(value));
        }
    }
}

} // verus!
