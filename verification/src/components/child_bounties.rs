use vstd::prelude::*;
use std::collections::BTreeSet;
use crate::components::accounts::{fitting, total, total_value, Ripeness, Scope, ScopeView};
use crate::runtimes::utils::{
    amount_human, amount_text, ascending, insert_ascending, lowercase, lowercase_text,
};
use crate::state::{State, StateView};
use crate::types::child_bounties::{
    entries, lemma_entries_below, lemma_u32_keys_ordered, ordered_entries, owned_entries,
    ChildBounties, ChildBounty, Filter, FilterView,
};
use crate::types::network::NetworkStatus;

verus! {

/// The parent bounties by which the card narrows its list.
#[derive(Clone, Debug, PartialEq, Eq)]
pub struct ChildBountiesTitleProps {
    pub bounties_filter: BTreeSet<u32>,
}

/// The parent bounties by which the card narrows its list.
#[derive(Clone, Debug, PartialEq, Eq)]
pub struct ChildBountiesBodyProps {
    pub bounties_filter: BTreeSet<u32>,
}

/// Whether `needle` stands somewhere in `text`, character for character.
pub open spec fn is_substring(text: Seq<char>, needle: Seq<char>) -> bool {
    exists|i: int|
        0 <= i <= text.len() - needle.len() && #[trigger] text.subrange(i, i + needle.len())
            == needle
}

/// `str::contains` of std with a text as the pattern: whether the pattern
/// matches a part of the text.
#[verifier::external_body]
fn contains_str(text: &str, needle: &str) -> (r: bool)
    ensures
        r == is_substring(text@, needle@),
{
    text.contains(needle)
}

/// Whether a description holds the searched text, letter case aside.
pub open spec fn description_has(description: Seq<char>, needle: Seq<char>) -> bool {
    is_substring(lowercase_text(description), lowercase_text(needle))
}

pub fn description_matches(description: &str, needle: &str) -> (r: bool)
    ensures
        r == description_has(description@, needle@),
{
    let text = lowercase(description);
    let wanted = lowercase(needle);
    contains_str(text.as_str(), wanted.as_str())
}

/// Whether a bounty is listed: the filter lets it through, its parent is
/// among the chosen parents if any is chosen, and its description holds
/// the searched text if one is searched.
pub open spec fn is_listed(
    child_bounty: ChildBounty,
    filter: FilterView,
    parents: Set<u32>,
    needle: Option<Seq<char>>,
) -> bool {
    &&& filter.accepts(child_bounty)
    &&& parents.is_empty() || parents.contains(child_bounty.parent_id)
    &&& match needle {
        Some(text) => description_has(child_bounty.description@, text),
        None => true,
    }
}

fn listed(
    child_bounty: &ChildBounty,
    filter: &Filter,
    parents: &BTreeSet<u32>,
    needle: Option<&str>,
) -> (r: bool)
    ensures
        r == is_listed(
            *child_bounty,
            filter@,
            parents@,
            match needle {
                Some(text) => Some(text@),
                None => None,
            },
        ),
{
    proof {
        lemma_u32_keys_ordered();
    }
    filter.check(child_bounty) && (parents.is_empty() || parents.contains(&child_bounty.parent_id))
        && match needle {
        Some(text) => description_matches(child_bounty.description.as_str(), text),
        None => true,
    }
}

/// The ids of the listed bounties among some entries, in their order.
pub open spec fn listed_ids(
    all: Seq<(u32, ChildBounty)>,
    filter: FilterView,
    parents: Set<u32>,
    needle: Option<Seq<char>>,
) -> Seq<u32>
    decreases all.len(),
{
    if all.len() == 0 {
        Seq::empty()
    } else {
        let rest = listed_ids(all.drop_last(), filter, parents, needle);
        if is_listed(all.last().1, filter, parents, needle) {
            rest.push(all.last().1.id)
        } else {
            rest
        }
    }
}

/// The ids of the cached bounties that are listed, by ascending key.
pub fn rows(
    bounties: &ChildBounties,
    filter: &Filter,
    parents: &BTreeSet<u32>,
    needle: Option<&str>,
) -> (r: Vec<u32>)
    ensures
        r@ == listed_ids(
            ordered_entries(bounties@),
            filter@,
            parents@,
            match needle {
                Some(text) => Some(text@),
                None => None,
            },
        ),
{
    let entered = entries(bounties);
    let ghost all = ordered_entries(bounties@);
    let ghost wanted = match needle {
        Some(text) => Some(text@),
        None => None,
    };
    let mut out: Vec<u32> = Vec::new();
    let mut i: usize = 0;
    proof {
        assert(all.take(0) =~= Seq::empty());
    }
    while i < entered.len()
        invariant
            i <= entered.len(),
            owned_entries(entered@) == all,
            wanted == match needle {
                Some(text) => Some(text@),
                None => None,
            },
            out@ == listed_ids(all.take(i as int), filter@, parents@, wanted),
        decreases entered.len() - i,
    {
        let (_, bounty) = entered[i];
        proof {
            assert(all.take(i + 1).drop_last() =~= all.take(i as int));
            assert(all.take(i + 1).last().1 == *bounty);
        }
        if listed(bounty, filter, parents, needle) {
            out.push(bounty.id);
        }
        i += 1;
    }
    proof {
        assert(all.take(all.len() as int) =~= all);
    }
    out
}

/// The parent bounties that the cached bounties belong to.
pub open spec fn parents_of(bounties: Map<u32, ChildBounty>) -> Set<u32> {
    Set::new(|parent: u32| exists|id: u32| bounties.contains_key(id) && #[trigger] bounties[id].parent_id == parent)
}

/// The parent bounties of the cached bounties, each once, ascending: one
/// chip for each during onboarding.
pub fn parent_chips(bounties: &ChildBounties) -> (r: Vec<u32>)
    ensures
        ascending(r@),
        r@.to_set() == parents_of(bounties@),
{
    let entered = entries(bounties);
    let ghost all = ordered_entries(bounties@);
    let mut out: Vec<u32> = Vec::new();
    let mut i: usize = 0;
    proof {
        lemma_entries_below(bounties@, 0x1_0000_0000);
    }
    while i < entered.len()
        invariant
            i <= entered.len(),
            owned_entries(entered@) == all,
            ascending(out@),
            forall|parent: u32|
                out@.to_set().contains(parent) <==> exists|j: int|
                    0 <= j < i && (#[trigger] all[j]).1.parent_id == parent,
        decreases entered.len() - i,
    {
        let (_, bounty) = entered[i];
        let ghost was = out@.to_set();
        proof {
            assert(all[i as int].1 == *bounty);
        }
        insert_ascending(&mut out, bounty.parent_id);
        proof {
            assert forall|parent: u32| out@.to_set().contains(parent) <==> exists|j: int|
                0 <= j < i + 1 && (#[trigger] all[j]).1.parent_id == parent by {
                if was.contains(parent) {
                    let j = choose|j: int| 0 <= j < i && (#[trigger] all[j]).1.parent_id == parent;
                    assert(0 <= j < i + 1 && all[j].1.parent_id == parent);
                }
                if parent == bounty.parent_id {
                    assert(all[i as int].1.parent_id == parent);
                }
                if exists|j: int| 0 <= j < i + 1 && (#[trigger] all[j]).1.parent_id == parent {
                    let j = choose|j: int|
                        0 <= j < i + 1 && (#[trigger] all[j]).1.parent_id == parent;
                    if j < i {
                        assert(was.contains(parent));
                    }
                }
            }
        }
        i += 1;
    }
    proof {
        assert forall|parent: u32| out@.to_set().contains(parent) == parents_of(
            bounties@,
        ).contains(parent) by {
            if out@.to_set().contains(parent) {
                let j = choose|j: int|
                    0 <= j < all.len() && (#[trigger] all[j]).1.parent_id == parent;
                assert(bounties@.contains_key(all[j].0) && bounties@[all[j].0].parent_id == parent);
            }
            if parents_of(bounties@).contains(parent) {
                let id = choose|id: u32|
                    bounties@.contains_key(id) && #[trigger] bounties@[id].parent_id == parent;
                assert(all.contains((id, bounties@[id])));
                let j = choose|j: int| 0 <= j < all.len() && all[j] == (id, bounties@[id]);
                assert(all[j].1.parent_id == parent);
            }
        }
        assert(out@.to_set() =~= parents_of(bounties@));
    }
    out
}

/// The chosen parents after the chip of one was pressed: it is chosen if
/// it was not, and no longer chosen if it was.
pub fn toggle_parent(chosen: BTreeSet<u32>, parent: u32) -> (r: BTreeSet<u32>)
    ensures
        r@ == if chosen@.contains(parent) {
            chosen@.remove(parent)
        } else {
            chosen@.insert(parent)
        },
{
    proof {
        lemma_u32_keys_ordered();
    }
    let mut out = chosen;
    if out.contains(&parent) {
        out.remove(&parent);
    } else {
        out.insert(parent);
    }
    out
}

/// The chosen parents after the chip for all bounties was pressed: none.
pub fn toggle_all(chosen: BTreeSet<u32>) -> (r: BTreeSet<u32>)
    ensures
        r@ == Set::<u32>::empty(),
{
    let mut out = chosen;
    out.clear();
    out
}

/// What the card of child bounties shows.
#[derive(Clone, Debug, PartialEq, Eq)]
pub enum CardView {
    /// Nothing is cached yet and the network is at work: a spinner over
    /// the given caption.
    Loading(&'static str),
    /// The cached bounties.
    Listing,
    /// Nothing.
    Hidden,
}

pub open spec fn spec_card(state: StateView) -> CardView {
    let at_work = state.network.status == NetworkStatus::Initializing
        || state.network.fetches_counter > 0;
    if at_work && state.child_bounties_raw is None {
        if state.network.status == NetworkStatus::Initializing {
            CardView::Loading("Initializing network. Hang tight...")
        } else {
            CardView::Loading(
                "Retrieving just for you, the most recent child bounties state. Hang tight...",
            )
        }
    } else if state.child_bounties_raw is Some {
        CardView::Listing
    } else {
        CardView::Hidden
    }
}

pub fn child_bounties_card(state: &State) -> (r: CardView)
    ensures
        r == spec_card(state@),
{
    let at_work = state.network.is_initializing() || state.network.is_fetching();
    if at_work && state.child_bounties_raw.is_none() {
        if state.network.is_initializing() {
            CardView::Loading("Initializing network. Hang tight...")
        } else {
            CardView::Loading(
                "Retrieving just for you, the most recent child bounties state. Hang tight...",
            )
        }
    } else if state.child_bounties_raw.is_some() {
        CardView::Listing
    } else {
        CardView::Hidden
    }
}

/// The title row of the card.
#[derive(Clone, Debug, PartialEq, Eq)]
pub struct TitleView {
    /// How many bounties are listed.
    pub count: usize,
    /// Whether a fetch is under way.
    pub refreshing: bool,
    /// Whether the button that claims is offered.
    pub claim_button: bool,
}

/// The title row of the card: shown while at least one cached bounty
/// passes the filter and the chosen parents. The button that claims is
/// offered with the filter on followed accounts.
pub fn child_bounties_title(state: &State, props: &ChildBountiesTitleProps) -> (r: Option<
    TitleView,
>)
    ensures
        match state@.child_bounties_raw {
            Some(bounties) => {
                let count = listed_ids(
                    ordered_entries(bounties),
                    state@.filter,
                    props.bounties_filter@,
                    None,
                ).len();
                if count > 0 {
                    r == Some(
                        TitleView {
                            count: count as usize,
                            refreshing: state.network.fetches_counter > 0,
                            claim_button: state@.filter is Following,
                        },
                    )
                } else {
                    r is None
                }
            },
            None => r is None,
        },
{
    match &state.child_bounties_raw {
        Some(bounties) => {
            let listed = rows(bounties, &state.filter, &props.bounties_filter, None);
            if listed.len() > 0 {
                Some(
                    TitleView {
                        count: listed.len(),
                        refreshing: state.network.is_fetching(),
                        claim_button: state.filter.is_following(),
                    },
                )
            } else {
                None
            }
        },
        None => None,
    }
}

/// The body of the card.
#[derive(Clone, Debug, PartialEq, Eq)]
pub enum BodyView {
    /// The listed bounties by id, each with the follow action hidden or
    /// not.
    Rows(Vec<u32>, bool),
    /// Nothing passes the filter yet and a fetch is under way.
    Searching(&'static str),
    /// Nothing passes the filter.
    Empty(&'static str),
}

pub const SEARCHING_MESSAGE: &'static str =
    "Searching for any open child bounties awarded to the accounts you follow. Hang tight...";

pub const EMPTY_MESSAGE: &'static str =
    "There are no open child bounties awarded to the accounts you follow.";

/// The body of the card, where bounties are cached: the rows of the
/// bounties that pass the filter, the searched text and the chosen
/// parents, if any bounty passes the filter at all; else word that the
/// search is on, or that nothing was found. The action that follows a
/// beneficiary is offered during onboarding only.
pub fn child_bounties_body(state: &State, props: &ChildBountiesBodyProps, searched: &str) -> (r:
    Option<BodyView>)
    ensures
        match state@.child_bounties_raw {
            Some(bounties) => {
                let passing = listed_ids(
                    ordered_entries(bounties),
                    state@.filter,
                    Set::<u32>::empty(),
                    None,
                );
                if passing.len() > 0 {
                    r matches Some(BodyView::Rows(ids, hidden)) && ids@ == listed_ids(
                        ordered_entries(bounties),
                        state@.filter,
                        props.bounties_filter@,
                        Some(searched@),
                    ) && hidden == !state.layout.is_onboarding
                } else if state.network.fetches_counter > 0 {
                    r == Some(BodyView::Searching(SEARCHING_MESSAGE))
                } else {
                    r == Some(BodyView::Empty(EMPTY_MESSAGE))
                }
            },
            None => r is None,
        },
{
    match &state.child_bounties_raw {
        Some(bounties) => {
            let none: BTreeSet<u32> = BTreeSet::new();
            let passing = rows(bounties, &state.filter, &none, None);
            if passing.len() > 0 {
                Some(
                    BodyView::Rows(
                        rows(bounties, &state.filter, &props.bounties_filter, Some(searched)),
                        !state.layout.is_onboarding,
                    ),
                )
            } else if state.network.is_fetching() {
                Some(BodyView::Searching(SEARCHING_MESSAGE))
            } else {
                Some(BodyView::Empty(EMPTY_MESSAGE))
            }
        },
        None => None,
    }
}

/// Whether the field that searches descriptions is offered: during
/// onboarding.
pub fn is_search_offered(state: &State) -> (r: bool)
    ensures
        r == state.layout.is_onboarding,
{
    state.layout.is_onboarding
}

/// The amounts under the list, in whole units.
#[derive(Clone, Debug, PartialEq, Eq)]
pub struct StatsView {
    /// What is pending; left out under the filter on claimable bounties.
    pub pending: Option<String>,
    pub claimable: String,
    pub unit: &'static str,
}

/// The amounts under the list: what of the bounties that pass the filter
/// is pending and what is claimable at the latest finalized block.
/// Nothing is shown without the cache or the block, or where a sum does
/// not fit.
pub fn child_bounties_stats(state: &State) -> (r: Option<StatsView>)
    ensures
        match (state@.child_bounties_raw, state.network.finalized_block_number) {
            (Some(bounties), Some(block)) => {
                let scope = ScopeView::Filtered(state@.filter);
                let pending = fitting(total_value(bounties, scope, Ripeness::Pending(block)));
                let claimable = fitting(total_value(bounties, scope, Ripeness::Claimable(block)));
                let decimals = state.network.runtime.spec_decimals() as nat;
                match (pending, claimable) {
                    (Some(p), Some(c)) => r matches Some(view) && view.claimable@ == amount_text(
                        c as nat,
                        decimals,
                    ) && view.unit@ == state.network.runtime.spec_unit() && (match view.pending {
                        Some(text) => !(state@.filter is Claimable) && text@ == amount_text(
                            p as nat,
                            decimals,
                        ),
                        None => state@.filter is Claimable,
                    }),
                    _ => r is None,
                }
            },
            _ => r is None,
        },
{
    let runtime = state.network.runtime;
    match (&state.child_bounties_raw, state.network.finalized_block_number) {
        (Some(bounties), Some(block)) => {
            let scope = Scope::Filtered(&state.filter);
            let pending = total(bounties, &scope, Ripeness::Pending(block));
            let claimable = total(bounties, &scope, Ripeness::Claimable(block));
            match (pending, claimable) {
                (Some(p), Some(c)) => Some(
                    StatsView {
                        pending: if state.filter.is_claimable() {
                            None
                        } else {
                            Some(amount_human(p, runtime.decimals() as u32))
                        },
                        claimable: amount_human(c, runtime.decimals() as u32),
                        unit: runtime.unit(),
                    },
                ),
                _ => None,
            }
        },
        _ => None,
    }
}

/// The pills that choose a filter: one of each kind, the one of the
/// active kind marked.
pub fn child_bounties_filters(state: &State) -> (r: Vec<(Filter, bool)>)
    ensures
        r@.len() == 3,
        r@[0].0@ == FilterView::All && r@[0].1 == (state@.filter is All),
        r@[1].0@ == FilterView::Following(Seq::empty()) && r@[1].1 == (state@.filter is Following),
        r@[2].0@ == FilterView::Claimable(Seq::empty()) && r@[2].1 == (state@.filter is Claimable),
{
    let mut out: Vec<(Filter, bool)> = Vec::new();
    let is_following = state.filter.is_following();
    let is_claimable = state.filter.is_claimable();
    out.push((Filter::All, !is_following && !is_claimable));
    out.push((Filter::Following(Vec::new()), is_following));
    out.push((Filter::Claimable(Vec::new()), is_claimable));
    out
}

} // verus!
