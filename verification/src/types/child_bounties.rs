use vstd::prelude::*;
use vstd::string::StringExecFns;
use vstd::std_specs::btree::increasing_seq;
use vstd::std_specs::cmp::OrdSpec;
use std::collections::BTreeMap;
use std::time::Duration;
use crate::runtimes::support::{SupportedRelayRuntime, BLOCK_TIME_SECS};
use crate::runtimes::utils::{amount_human, amount_text};
use crate::types::accounts::AccountId;

verus! {

/// The id of a child bounty.
pub type Id = u32;

pub type ParentBountyId = u32;

pub type ChildBountyId = u32;

#[derive(Clone, Copy, Debug, PartialEq, Eq, Structural)]
pub enum Status {
    Pending,
    Claimed,
}

impl Status {
    pub open spec fn spec_name(self) -> Seq<char> {
        match self {
            Status::Pending => "Pending"@,
            Status::Claimed => "Claimed"@,
        }
    }

    pub fn to_string(&self) -> (r: String)
        ensures
            r@ == self.spec_name(),
    {
        match self {
            Status::Pending => String::from_str("Pending"),
            Status::Claimed => String::from_str("Claimed"),
        }
    }
}

/// One child bounty that awaits its payout.
#[derive(Debug, PartialEq, Eq)]
pub struct ChildBounty {
    pub id: ChildBountyId,
    pub parent_id: ParentBountyId,
    pub description: String,
    pub value: u128,
    pub status: Status,
    pub beneficiary: AccountId,
    /// Display name of the beneficiary, where one was resolved.
    pub beneficiary_identity: Option<String>,
    /// The block after which the bounty can be claimed.
    pub unlock_at: u32,
}

impl Clone for ChildBounty {
    fn clone(&self) -> (r: Self)
        ensures
            r == *self,
    {
        ChildBounty {
            id: self.id,
            parent_id: self.parent_id,
            description: self.description.clone(),
            value: self.value,
            status: self.status,
            beneficiary: self.beneficiary,
            beneficiary_identity: match &self.beneficiary_identity {
                Some(name) => Some(name.clone()),
                None => None,
            },
            unlock_at: self.unlock_at,
        }
    }
}

/// What `format_duration` of humantime writes for a whole number of
/// seconds: the time in years, months, days, hours, minutes and seconds,
/// zero parts left out.
pub uninterp spec fn duration_text(secs: u64) -> Seq<char>;

/// `format_duration` of humantime, on a duration of whole seconds.
#[verifier::external_body]
fn format_seconds(secs: u64) -> (r: String)
    ensures
        r@ == duration_text(secs),
{
    humantime::format_duration(Duration::new(secs, 0)).to_string()
}

impl ChildBounty {
    pub fn key(&self) -> (r: (ParentBountyId, ChildBountyId))
        ensures
            r == (self.parent_id, self.id),
    {
        (self.parent_id, self.id)
    }

    pub fn value_human(&self, runtime: SupportedRelayRuntime) -> (r: String)
        ensures
            r@ == amount_text(self.value as nat, runtime.spec_decimals() as nat),
    {
        amount_human(self.value, runtime.decimals() as u32)
    }

    /// A bounty can be claimed once a block later than `unlock_at` is
    /// final.
    pub open spec fn spec_is_claimable(self, block_number: u32) -> bool {
        self.unlock_at < block_number
    }

    pub fn is_claimable(&self, block_number: u32) -> (r: bool)
        ensures
            r == self.spec_is_claimable(block_number),
            r <==> self.unlock_at < block_number,
    {
        self.unlock_at < block_number
    }

    /// Seconds until the bounty unlocks, at one block every six seconds.
    pub open spec fn spec_unlock_secs(self, block_number: u32) -> u64 {
        ((self.unlock_at - block_number) * BLOCK_TIME_SECS) as u64
    }

    /// How long until the bounty unlocks, in words; empty once it can be
    /// claimed.
    pub fn unlock_duration(&self, block_number: u32) -> (r: String)
        ensures
            r@ == if self.spec_is_claimable(block_number) {
                Seq::<char>::empty()
            } else {
                duration_text(self.spec_unlock_secs(block_number))
            },
    {
        if !self.is_claimable(block_number) {
            let n: u32 = self.unlock_at - block_number;
            format_seconds(n as u64 * BLOCK_TIME_SECS)
        } else {
            String::new()
        }
    }
}

/// The cached child bounties, by id.
pub type ChildBounties = BTreeMap<Id, ChildBounty>;

/// Child bounties named for a claim: parent id, then child id.
pub type ChildBountiesIds = Vec<(ParentBountyId, ChildBountyId)>;

/// Which child bounties are shown.
#[derive(Clone, Debug, PartialEq, Eq)]
pub enum Filter {
    All,
    Following(Vec<AccountId>),
    Claimable(Vec<ChildBountyId>),
}

pub enum FilterView {
    All,
    Following(Seq<AccountId>),
    Claimable(Seq<ChildBountyId>),
}

impl View for Filter {
    type V = FilterView;

    open spec fn view(&self) -> FilterView {
        match self {
            Filter::All => FilterView::All,
            Filter::Following(accounts) => FilterView::Following(accounts@),
            Filter::Claimable(ids) => FilterView::Claimable(ids@),
        }
    }
}

impl FilterView {
    /// Whether the filter lets a bounty through.
    pub open spec fn accepts(self, child_bounty: ChildBounty) -> bool {
        match self {
            FilterView::All => true,
            FilterView::Following(accounts) => accounts.contains(child_bounty.beneficiary),
            FilterView::Claimable(ids) => ids.contains(child_bounty.id),
        }
    }

    pub open spec fn spec_name(self) -> Seq<char> {
        match self {
            FilterView::All => "All"@,
            FilterView::Following(_) => "Following"@,
            FilterView::Claimable(_) => "Claimable"@,
        }
    }
}

impl Filter {
    pub fn check(&self, child_bounty: &ChildBounty) -> (r: bool)
        ensures
            r == self@.accepts(*child_bounty),
    {
        match self {
            Filter::All => true,
            Filter::Following(accounts) => {
                let mut i: usize = 0;
                while i < accounts.len()
                    invariant
                        self@ == FilterView::Following(accounts@),
                        i <= accounts.len(),
                        forall|j: int| 0 <= j < i ==> accounts@[j] != child_bounty.beneficiary,
                    decreases accounts.len() - i,
                {
                    if accounts[i].same(&child_bounty.beneficiary) {
                        assert(accounts@[i as int] == child_bounty.beneficiary);
                        return true;
                    }
                    i += 1;
                }
                false
            },
            Filter::Claimable(ids) => {
                let mut i: usize = 0;
                while i < ids.len()
                    invariant
                        self@ == FilterView::Claimable(ids@),
                        i <= ids.len(),
                        forall|j: int| 0 <= j < i ==> ids@[j] != child_bounty.id,
                    decreases ids.len() - i,
                {
                    if ids[i] == child_bounty.id {
                        assert(ids@[i as int] == child_bounty.id);
                        return true;
                    }
                    i += 1;
                }
                false
            },
        }
    }

    pub fn is_claimable(&self) -> (r: bool)
        ensures
            r == (self@ is Claimable),
    {
        match self {
            Filter::Claimable(_) => true,
            _ => false,
        }
    }

    pub fn is_following(&self) -> (r: bool)
        ensures
            r == (self@ is Following),
    {
        match self {
            Filter::Following(_) => true,
            _ => false,
        }
    }

    pub fn to_string(&self) -> (r: String)
        ensures
            r@ == self@.spec_name(),
    {
        match self {
            Filter::All => String::from_str("All"),
            Filter::Following(_) => String::from_str("Following"),
            Filter::Claimable(_) => String::from_str("Claimable"),
        }
    }

    /// One filter of each kind, empty where a kind holds a list.
    pub fn variants() -> (r: Vec<Filter>)
        ensures
            r@.len() == 3,
            r@[0]@ == FilterView::All,
            r@[1]@ == FilterView::Following(Seq::empty()),
            r@[2]@ == FilterView::Claimable(Seq::empty()),
    {
        let mut out: Vec<Filter> = Vec::new();
        out.push(Filter::All);
        out.push(Filter::Following(Vec::new()));
        out.push(Filter::Claimable(Vec::new()));
        out
    }
}

/// What the filters let through: `All` every bounty, `Following` of no
/// account and `Claimable` of no id none, and `Following` of one account
/// exactly the bounties that name it as beneficiary.
pub proof fn filter_semantics(account: AccountId, child_bounty: ChildBounty)
    ensures
        FilterView::All.accepts(child_bounty),
        !FilterView::Following(Seq::empty()).accepts(child_bounty),
        FilterView::Following(seq![account]).accepts(child_bounty) <==> child_bounty.beneficiary
            == account,
        !FilterView::Claimable(Seq::empty()).accepts(child_bounty),
{
    if child_bounty.beneficiary == account {
        assert(seq![account][0] == child_bounty.beneficiary);
    }
}

/// The entries of a map with keys below `n`, in the order of their keys.
pub open spec fn entries_below(m: Map<u32, ChildBounty>, n: int) -> Seq<(u32, ChildBounty)>
    decreases n,
{
    if n <= 0 {
        Seq::empty()
    } else {
        let k = (n - 1) as u32;
        let prev = entries_below(m, n - 1);
        if m.contains_key(k) {
            prev.push((k, m[k]))
        } else {
            prev
        }
    }
}

/// All entries of a map of child bounties, by ascending id.
pub open spec fn ordered_entries(m: Map<u32, ChildBounty>) -> Seq<(u32, ChildBounty)> {
    entries_below(m, 0x1_0000_0000)
}

/// Borrowed entries, as the values they stand for.
pub open spec fn owned_entries(s: Seq<(u32, &ChildBounty)>) -> Seq<(u32, ChildBounty)> {
    s.map_values(|p: (u32, &ChildBounty)| (p.0, *p.1))
}

pub proof fn lemma_entries_below_gap(m: Map<u32, ChildBounty>, a: int, b: int)
    requires
        0 <= a <= b <= 0x1_0000_0000,
        forall|k: u32| a <= k < b ==> !m.contains_key(k),
    ensures
        entries_below(m, b) == entries_below(m, a),
    decreases b - a,
{
    if a < b {
        lemma_entries_below_gap(m, a, b - 1);
    }
}

/// Every listed entry is in the map under a key below the bound, keys
/// ascend, and every such key of the map is listed.
pub proof fn lemma_entries_below(m: Map<u32, ChildBounty>, n: int)
    requires
        0 <= n <= 0x1_0000_0000,
    ensures
        forall|i: int|
            0 <= i < entries_below(m, n).len() ==> {
                let e = #[trigger] entries_below(m, n)[i];
                e.0 < n && m.contains_key(e.0) && m[e.0] == e.1
            },
        forall|i: int, j: int|
            0 <= i < j < entries_below(m, n).len() ==> (#[trigger] entries_below(m, n)[i]).0 < (
            #[trigger] entries_below(m, n)[j]).0,
        forall|k: u32|
            k < n && m.contains_key(k) ==> entries_below(m, n).contains((k, #[trigger] m[k])),
    decreases n,
{
    if n > 0 {
        lemma_entries_below(m, n - 1);
        let prev = entries_below(m, n - 1);
        let cur = entries_below(m, n);
        let last = (n - 1) as u32;
        assert forall|k: u32| k < n && m.contains_key(k) implies cur.contains((k, #[trigger] m[k])) by {
            if k < n - 1 {
                let i = choose|i: int| 0 <= i < prev.len() && prev[i] == (k, m[k]);
                assert(cur[i] == (k, m[k]));
            } else {
                assert(cur[cur.len() - 1] == (k, m[k]));
            }
        }
    }
}

/// That `u32` keys are ordered as the ordered collections of std expect.
/// What vstd states of those collections is stated under this condition.
pub open spec fn u32_keys_ordered() -> bool {
    vstd::laws_cmp::obeys_cmp::<u32>() && vstd::std_specs::btree::key_obeys_cmp_spec::<u32>()
}

pub proof fn lemma_u32_keys_ordered()
    ensures
        u32_keys_ordered(),
{
    broadcast use vstd::laws_cmp::group_laws_cmp;
    broadcast use vstd::std_specs::btree::axiom_key_obeys_cmp_spec_meaning;

}

proof fn lemma_increasing_keys(s: Seq<u32>)
    requires
        increasing_seq(s),
    ensures
        forall|i: int, j: int| 0 <= i < j < s.len() ==> s[i] < s[j],
{
    broadcast use vstd::laws_cmp::group_laws_cmp;
    broadcast use vstd::std_specs::btree::axiom_increasing_seq_meaning;

    assert forall|i: int, j: int| 0 <= i < j < s.len() implies s[i] < s[j] by {
        assert(s[i].cmp_spec(&s[j]) is Less);
    }
}

spec fn keys_of(s: Seq<(&u32, &ChildBounty)>) -> Seq<u32> {
    s.map_values(|kv: (&u32, &ChildBounty)| *kv.0)
}

spec fn ahead(s: Seq<(&u32, &ChildBounty)>, from: int, k: u32) -> bool {
    exists|j: int| from <= j < s.len() && *(#[trigger] s[j]).0 == k
}

/// The bounties of a map with their ids, by ascending id.
pub fn entries(m: &ChildBounties) -> (r: Vec<(u32, &ChildBounty)>)
    ensures
        owned_entries(r@) == ordered_entries(m@),
{
    broadcast use vstd::laws_cmp::group_laws_cmp;

    let mut out: Vec<(u32, &ChildBounty)> = Vec::new();
    let ghost mut next: int = 0;
    for kv in it: m.iter()
        invariant
            increasing_seq(keys_of(it.seq())),
            forall|i: int|
                0 <= i < it.seq().len() ==> m@.contains_key(*(#[trigger] it.seq()[i]).0)
                    && m@[*it.seq()[i].0] == *it.seq()[i].1,
            0 <= next <= 0x1_0000_0000,
            forall|j: int| it.index() <= j < it.seq().len() ==> *(#[trigger] it.seq()[j]).0 >= next,
            forall|k: u32| #[trigger]
                m@.contains_key(k) ==> k < next || ahead(it.seq(), it.index(), k),
            owned_entries(out@) == entries_below(m@, next),
    {
        let (k, v) = kv;
        proof {
            let s = it.seq();
            let i = it.index();
            lemma_increasing_keys(keys_of(s));
            assert forall|kk: u32| next <= kk < *k implies !m@.contains_key(kk) by {
                if m@.contains_key(kk) {
                    let j = choose|j: int| i <= j < s.len() && *(#[trigger] s[j]).0 == kk;
                    assert(keys_of(s)[j] == kk);
                    assert(keys_of(s)[i] == *k);
                }
            }
            lemma_entries_below_gap(m@, next, *k + 0);
            assert forall|kk: u32| #[trigger] m@.contains_key(kk) implies kk < *k + 1 || ahead(
                s,
                i + 1,
                kk,
            ) by {
                if kk >= next {
                    let j = choose|j: int| i <= j < s.len() && *(#[trigger] s[j]).0 == kk;
                    if j > i {
                        assert(*s[j].0 == kk);
                    }
                }
            }
            assert forall|j: int| i + 1 <= j < s.len() implies *(#[trigger] s[j]).0 >= *k + 1 by {
                assert(keys_of(s)[i] < keys_of(s)[j]);
            }
            next = *k + 1;
        }
        out.push((*k, v));
        proof {
            assert(owned_entries(out@) == entries_below(m@, next));
        }
    }
    proof {
        lemma_entries_below_gap(m@, next, 0x1_0000_0000);
    }
    out
}

} // verus!
