use vstd::prelude::*;
use vstd::string::{StringExecFns, StringSliceAdditionalSpecFns};
use crate::runtimes::support::{str_eq, SupportedRelayRuntime};
use crate::runtimes::utils::{
    ascending, decimal, decimal_text, insert_ascending, lowercase, lowercase_text,
};

verus! {

/// The pages of the application.
#[derive(Clone, Copy, Debug, PartialEq, Eq, Structural)]
pub enum Routes {
    /// The application itself, at `/`.
    Index,
    /// Any other path.
    NotFound,
}

impl Routes {
    /// The page that a path leads to.
    pub fn from_path(path: &str) -> (r: Self)
        ensures
            r == if path@ == "/"@ {
                Routes::Index
            } else {
                Routes::NotFound
            },
    {
        if str_eq(path, "/") {
            Routes::Index
        } else {
            Routes::NotFound
        }
    }

    /// The path of a page.
    pub fn to_path(&self) -> (r: &'static str)
        ensures
            r@ == match self {
                Routes::Index => "/"@,
                Routes::NotFound => "/404"@,
            },
    {
        match self {
            Routes::Index => "/",
            Routes::NotFound => "/404",
        }
    }
}

/// The page for a path that leads nowhere.
#[derive(Clone, Debug, PartialEq, Eq)]
pub struct PageNotFoundView {
    pub message: &'static str,
    /// The label of the button that leads back.
    pub button: &'static str,
    /// Where the button leads.
    pub target: Routes,
}

pub fn page_not_found() -> (r: PageNotFoundView)
    ensures
        r.message@ == "UPPS! PAGE NOT FOUND"@,
        r.button@ == "go back"@,
        r.target == Routes::Index,
{
    PageNotFoundView { message: "UPPS! PAGE NOT FOUND", button: "go back", target: Routes::Index }
}

/// The page that a route shows.
pub fn switch(routes: Routes) -> (r: Option<PageNotFoundView>)
    ensures
        match routes {
            Routes::Index => r is None,
            Routes::NotFound => r is Some && r->0.target == Routes::Index,
        },
{
    match routes {
        Routes::Index => None,
        Routes::NotFound => Some(page_not_found()),
    }
}

/// What the query string of the address bar says.
#[derive(Clone, Debug, PartialEq, Eq)]
pub struct Query {
    /// The chain to connect to.
    pub chain: SupportedRelayRuntime,
    /// Whether to connect through the light client.
    pub lc: bool,
    /// Parent bounties to narrow the listing to, ascending and each once.
    pub bounties: Vec<u32>,
}

/// The chain that a name or ticker in lower case stands for; the main
/// chain for any other text.
pub open spec fn chain_named(lowered: Seq<char>) -> SupportedRelayRuntime {
    if lowered == "kusama"@ || lowered == "ksm"@ {
        SupportedRelayRuntime::Kusama
    } else if lowered == "paseo"@ || lowered == "pas"@ {
        SupportedRelayRuntime::Paseo
    } else {
        SupportedRelayRuntime::Polkadot
    }
}

/// The chain that the `chain` parameter asks for, whatever its letter
/// case.
pub fn deserialize_from_any_case(value: &str) -> (r: SupportedRelayRuntime)
    ensures
        r == chain_named(lowercase_text(value@)),
{
    let lowered = lowercase(value);
    let text = lowered.as_str();
    if str_eq(text, "kusama") || str_eq(text, "ksm") {
        SupportedRelayRuntime::Kusama
    } else if str_eq(text, "paseo") || str_eq(text, "pas") {
        SupportedRelayRuntime::Paseo
    } else {
        SupportedRelayRuntime::Polkadot
    }
}

/// Without an `lc` parameter the light client is used.
pub fn default_light_client() -> (r: bool)
    ensures
        r,
{
    true
}

impl Query {
    /// What an empty query string says: the main chain, through the light
    /// client, no narrowing.
    pub fn new() -> (r: Self)
        ensures
            r.chain == SupportedRelayRuntime::Polkadot,
            r.lc,
            r.bounties@.len() == 0,
    {
        Query {
            chain: SupportedRelayRuntime::Polkadot,
            lc: default_light_client(),
            bounties: Vec::new(),
        }
    }

    /// The query from the raw values of its parameters, each with its
    /// default where the parameter is missing.
    pub fn from_params(chain: Option<&str>, lc: Option<bool>, bounties: Option<&str>) -> (r: Self)
        ensures
            r.chain == match chain {
                Some(value) => chain_named(lowercase_text(value@)),
                None => SupportedRelayRuntime::Polkadot,
            },
            r.lc == match lc {
                Some(value) => value,
                None => true,
            },
            ascending(r.bounties@),
            r.bounties@.to_set() == match bounties {
                Some(csv) => csv_numbers(csv.spec_bytes()),
                None => Set::<u32>::empty(),
            },
    {
        Query {
            chain: match chain {
                Some(value) => deserialize_from_any_case(value),
                None => SupportedRelayRuntime::Polkadot,
            },
            lc: match lc {
                Some(value) => value,
                None => default_light_client(),
            },
            bounties: match bounties {
                Some(csv) => deserialize_from_csv(csv),
                None => {
                    let none: Vec<u32> = Vec::new();
                    assert(none@.to_set() =~= Set::<u32>::empty());
                    none
                },
            },
        }
    }
}

/// Numbers in decimal, a comma between them.
pub open spec fn csv_text(numbers: Seq<u32>) -> Seq<char>
    decreases numbers.len(),
{
    if numbers.len() == 0 {
        Seq::empty()
    } else if numbers.len() == 1 {
        decimal_text(numbers[0] as nat)
    } else {
        csv_text(numbers.drop_last()) + seq![','] + decimal_text(numbers.last() as nat)
    }
}

/// The `bounties` parameter for a list of parent bounties.
pub fn serialize_as_csv(bounties: &Vec<u32>) -> (r: String)
    ensures
        r@ == csv_text(bounties@),
{
    let mut out = String::new();
    let mut i: usize = 0;
    proof {
        assert(bounties@.take(0) =~= Seq::empty());
        reveal_strlit(",");
    }
    while i < bounties.len()
        invariant
            i <= bounties.len(),
            out@ == csv_text(bounties@.take(i as int)),
            ","@ == seq![','],
        decreases bounties.len() - i,
    {
        proof {
            assert(bounties@.take(i + 1).drop_last() =~= bounties@.take(i as int));
            assert(bounties@.take(i + 1).last() == bounties@[i as int]);
        }
        if i > 0 {
            out.append(",");
        }
        let number = decimal(bounties[i] as u128);
        out.append(number.as_str());
        proof {
            if i == 0 {
                assert(out@ =~= decimal_text(bounties@[0] as nat));
                assert(bounties@.take(1)[0] == bounties@[0]);
            }
        }
        i += 1;
    }
    proof {
        assert(bounties@.take(bounties@.len() as int) =~= bounties@);
    }
    out
}

/// The byte of a comma.
pub const COMMA: u8 = 0x2C;

/// The byte of a plus sign.
pub const PLUS: u8 = 0x2B;

/// The number that decimal digits spell, where all the bytes are digits.
pub open spec fn digits_value(digits: Seq<u8>) -> Option<nat>
    decreases digits.len(),
{
    if digits.len() == 0 {
        Some(0)
    } else {
        match digits_value(digits.drop_last()) {
            Some(head) => if 0x30 <= digits.last() <= 0x39 {
                Some(head * 10 + (digits.last() - 0x30) as nat)
            } else {
                None
            },
            None => None,
        }
    }
}

/// The number that a field spells: decimal digits, at least one, with or
/// without a plus sign before them, and a value that fits in 32 bits.
pub open spec fn field_number(field: Seq<u8>) -> Option<u32> {
    let digits = if field.len() > 0 && field[0] == PLUS {
        field.drop_first()
    } else {
        field
    };
    if digits.len() == 0 {
        None
    } else {
        match digits_value(digits) {
            Some(value) => if value <= u32::MAX {
                Some(value as u32)
            } else {
                None
            },
            None => None,
        }
    }
}

/// The fields of a text: what stands between its commas.
pub open spec fn csv_fields(bytes: Seq<u8>) -> Seq<Seq<u8>>
    decreases bytes.len(),
{
    if bytes.len() == 0 {
        seq![Seq::<u8>::empty()]
    } else {
        let head = csv_fields(bytes.drop_last());
        if bytes.last() == COMMA {
            head.push(Seq::<u8>::empty())
        } else {
            head.drop_last().push(head.last().push(bytes.last()))
        }
    }
}

/// The numbers among some fields.
pub open spec fn numbers_in(fields: Seq<Seq<u8>>) -> Set<u32> {
    Set::new(
        |n: u32| exists|i: int| 0 <= i < fields.len() && field_number(#[trigger] fields[i]) == Some(n),
    )
}

/// The numbers that a text of comma-separated values holds. Fields that
/// spell no number are passed over.
pub open spec fn csv_numbers(bytes: Seq<u8>) -> Set<u32> {
    numbers_in(csv_fields(bytes))
}

/// The bounties that the `bounties` parameter names.
pub fn deserialize_from_csv(csv: &str) -> (r: Vec<u32>)
    ensures
        ascending(r@),
        r@.to_set() == csv_numbers(csv.spec_bytes()),
{
    let bytes = csv.as_bytes();
    let n = bytes.len();
    let mut out: Vec<u32> = Vec::new();
    let mut start: usize = 0;
    let mut i: usize = 0;
    let ghost mut done: Seq<Seq<u8>> = Seq::empty();
    proof {
        assert(bytes@.take(0) =~= Seq::empty());
        assert(bytes@.subrange(0, 0) =~= Seq::empty());
        assert(csv_fields(bytes@.take(0)) =~= done.push(bytes@.subrange(0, 0)));
        assert(out@.to_set() =~= numbers_in(done));
    }
    while i < n
        invariant
            n == bytes@.len(),
            bytes@ == csv.spec_bytes(),
            start <= i <= n,
            csv_fields(bytes@.take(i as int)) == done.push(bytes@.subrange(start as int, i as int)),
            ascending(out@),
            out@.to_set() == numbers_in(done),
        decreases n - i,
    {
        proof {
            assert(bytes@.take(i + 1).drop_last() =~= bytes@.take(i as int));
            assert(bytes@.take(i + 1).last() == bytes@[i as int]);
        }
        if bytes[i] == COMMA {
            let ghost field = bytes@.subrange(start as int, i as int);
            match parse_field(bytes, start, i) {
                Some(value) => {
                    insert_ascending(&mut out, value);
                },
                None => {},
            }
            proof {
                lemma_numbers_in_push(done, field);
                done = done.push(field);
                assert(bytes@.subrange(i + 1, i + 1) =~= Seq::empty());
            }
            start = i + 1;
        } else {
            proof {
                let head = done.push(bytes@.subrange(start as int, i as int));
                assert(head.drop_last() =~= done);
                assert(head.last().push(bytes@[i as int]) =~= bytes@.subrange(
                    start as int,
                    i + 1,
                ));
            }
        }
        i += 1;
    }
    let ghost field = bytes@.subrange(start as int, n as int);
    match parse_field(bytes, start, n) {
        Some(value) => {
            insert_ascending(&mut out, value);
        },
        None => {},
    }
    proof {
        lemma_numbers_in_push(done, field);
        assert(bytes@.take(n as int) =~= bytes@);
    }
    out
}

/// The numbers among some fields and one more field.
pub proof fn lemma_numbers_in_push(fields: Seq<Seq<u8>>, field: Seq<u8>)
    ensures
        numbers_in(fields.push(field)) == match field_number(field) {
            Some(value) => numbers_in(fields).insert(value),
            None => numbers_in(fields),
        },
{
    let more = fields.push(field);
    let wanted = match field_number(field) {
        Some(value) => numbers_in(fields).insert(value),
        None => numbers_in(fields),
    };
    assert forall|n: u32| numbers_in(more).contains(n) == wanted.contains(n) by {
        if numbers_in(more).contains(n) {
            let i = choose|i: int| 0 <= i < more.len() && field_number(#[trigger] more[i]) == Some(n);
            if i < fields.len() {
                assert(field_number(fields[i]) == Some(n));
            }
        }
        if numbers_in(fields).contains(n) {
            let i = choose|i: int|
                0 <= i < fields.len() && field_number(#[trigger] fields[i]) == Some(n);
            assert(field_number(more[i]) == Some(n));
        }
        if field_number(field) == Some(n) {
            assert(field_number(more[fields.len() as int]) == Some(n));
        }
    }
    assert(numbers_in(more) =~= wanted);
}

/// Digits that spell a number spell a number no larger up to any place.
pub proof fn lemma_digits_prefix(digits: Seq<u8>, k: int)
    requires
        0 <= k <= digits.len(),
        digits_value(digits) is Some,
    ensures
        digits_value(digits.take(k)) is Some,
        digits_value(digits.take(k))->0 <= digits_value(digits)->0,
    decreases digits.len() - k,
{
    if k == digits.len() {
        assert(digits.take(k) =~= digits);
    } else {
        lemma_digits_prefix(digits.drop_last(), k);
        assert(digits.drop_last().take(k) =~= digits.take(k));
    }
}

/// The number that the bytes from `start` up to `end` spell as a field.
#[verifier::loop_isolation(false)]
pub fn parse_field(bytes: &[u8], start: usize, end: usize) -> (r: Option<u32>)
    requires
        start <= end <= bytes@.len(),
    ensures
        r == field_number(bytes@.subrange(start as int, end as int)),
{
    let ghost field = bytes@.subrange(start as int, end as int);
    let mut i: usize = start;
    if i < end && bytes[i] == PLUS {
        i += 1;
    }
    let first = i;
    let ghost digits = bytes@.subrange(first as int, end as int);
    proof {
        if first > start {
            assert(field[0] == PLUS);
            assert(field.drop_first() =~= digits);
        } else if start < end {
            assert(field[0] == bytes@[start as int]);
            assert(field =~= digits);
        } else {
            assert(field =~= digits);
        }
    }
    if i == end {
        return None;
    }
    let mut value: u64 = 0;
    proof {
        assert(digits.take(0) =~= Seq::empty());
    }
    while i < end
        invariant
            first <= i <= end <= bytes@.len(),
            digits == bytes@.subrange(first as int, end as int),
            digits_value(digits.take(i - first)) == Some(value as nat),
            value <= u32::MAX,
        decreases end - i,
    {
        let b = bytes[i];
        proof {
            assert(digits.take(i - first + 1).drop_last() =~= digits.take(i - first));
            assert(digits.take(i - first + 1).last() == b);
        }
        if b < 0x30 || b > 0x39 {
            proof {
                if digits_value(digits) is Some {
                    lemma_digits_prefix(digits, i - first + 1);
                }
            }
            return None;
        }
        value = value * 10 + (b - 0x30) as u64;
        if value > 0xFFFF_FFFF {
            proof {
                if digits_value(digits) is Some {
                    lemma_digits_prefix(digits, i - first + 1);
                }
            }
            return None;
        }
        i += 1;
    }
    proof {
        assert(digits.take(end - first) =~= digits);
    }
    Some(value as u32)
}

} // verus!
