use vstd::prelude::*;
use std::collections::BTreeSet;
use crate::types::accounts::{views, Account, AccountId, AccountView, Balance};
use crate::types::child_bounties::{
    entries, lemma_entries_below, lemma_u32_keys_ordered, ordered_entries, owned_entries,
    u32_keys_ordered, ChildBounties, ChildBounty,
};

verus! {

/// The ids of the cached bounties whose beneficiary is `account`.
pub open spec fn linked_ids(bounties: Map<u32, ChildBounty>, account: AccountId) -> Set<u32> {
    Set::new(|id: u32| bounties.contains_key(id) && bounties[id].beneficiary == account)
}

/// An account with its bounties linked anew from the cache.
pub open spec fn relinked_account(account: AccountView, bounties: Map<u32, ChildBounty>) -> AccountView {
    AccountView { child_bounty_ids: linked_ids(bounties, account.address.id()), ..account }
}

/// Every account with its bounties linked anew from the cache.
pub open spec fn relinked(accounts: Seq<AccountView>, bounties: Map<u32, ChildBounty>) -> Seq<
    AccountView,
> {
    accounts.map_values(|a: AccountView| relinked_account(a, bounties))
}

/// An account without the claimed bounties.
pub open spec fn stripped_account(account: AccountView, claimed: Set<u32>) -> AccountView {
    AccountView { child_bounty_ids: account.child_bounty_ids.difference(claimed), ..account }
}

/// Every account without the claimed bounties.
pub open spec fn stripped(accounts: Seq<AccountView>, claimed: Set<u32>) -> Seq<AccountView> {
    accounts.map_values(|a: AccountView| stripped_account(a, claimed))
}

/// The accounts but the one with the given id.
pub open spec fn without_id(accounts: Seq<AccountView>, id: u32) -> Seq<AccountView> {
    accounts.filter(|a: AccountView| a.id != id)
}

/// The accounts with the balance of the first one under `id` replaced.
pub open spec fn with_balance(accounts: Seq<AccountView>, id: u32, balance: Balance) -> Seq<
    AccountView,
>
    decreases accounts.len(),
{
    if accounts.len() == 0 {
        accounts
    } else if accounts.first().id == id {
        seq![AccountView { balance, ..accounts.first() }] + accounts.drop_first()
    } else {
        seq![accounts.first()] + with_balance(accounts.drop_first(), id, balance)
    }
}

/// The ids of the cached bounties that name `account`.
pub fn linked(bounties: &ChildBounties, account: &AccountId) -> (r: BTreeSet<u32>)
    ensures
        r@ == linked_ids(bounties@, *account),
{
    let listed = entries(bounties);
    let mut out: BTreeSet<u32> = BTreeSet::new();
    let mut i: usize = 0;
    proof {
        lemma_u32_keys_ordered();
        lemma_entries_below(bounties@, 0x1_0000_0000);
    }
    while i < listed.len()
        invariant
            i <= listed.len(),
            owned_entries(listed@) == ordered_entries(bounties@),
            u32_keys_ordered(),
            forall|id: u32|
                out@.contains(id) <==> exists|j: int|
                    0 <= j < i && (#[trigger] listed@[j]).0 == id && listed@[j].1.beneficiary
                        == *account,
        decreases listed.len() - i,
    {
        let (id, bounty) = listed[i];
        if bounty.beneficiary.same(account) {
            out.insert(id);
        }
        i += 1;
    }
    proof {
        let all = ordered_entries(bounties@);
        assert forall|id: u32| out@.contains(id) == linked_ids(bounties@, *account).contains(
            id,
        ) by {
            if out@.contains(id) {
                let j = choose|j: int|
                    0 <= j < listed@.len() && (#[trigger] listed@[j]).0 == id
                        && listed@[j].1.beneficiary == *account;
                assert(all[j] == (listed@[j].0, *listed@[j].1));
            }
            if linked_ids(bounties@, *account).contains(id) {
                assert(all.contains((id, bounties@[id])));
                let j = choose|j: int| 0 <= j < all.len() && all[j] == (id, bounties@[id]);
                assert(all[j] == (listed@[j].0, *listed@[j].1));
            }
        }
        assert(out@ =~= linked_ids(bounties@, *account));
    }
    out
}

/// Links every account anew to the cached bounties that name it.
pub fn relink(accounts: Vec<Account>, bounties: &ChildBounties) -> (r: Vec<Account>)
    ensures
        views(r@) == relinked(views(accounts@), bounties@),
{
    let mut out: Vec<Account> = Vec::new();
    let ghost before = accounts@;
    for account in it: accounts
        invariant
            it.seq() == before,
            out@.len() == it.index(),
            forall|j: int|
                0 <= j < out@.len() ==> (#[trigger] out@[j])@ == relinked_account(
                    before[j]@,
                    bounties@,
                ),
    {
        let ids = linked(bounties, &account.address.account_id());
        out.push(
            Account {
                id: account.id,
                address: account.address,
                identity: account.identity,
                disabled: account.disabled,
                child_bounty_ids: ids,
                balance: account.balance,
            },
        );
    }
    assert(views(out@) =~= relinked(views(before), bounties@));
    out
}

/// A set of ids without those in `claimed`.
pub fn without_claimed(ids: BTreeSet<u32>, claimed: &Vec<u32>) -> (r: BTreeSet<u32>)
    ensures
        r@ == ids@.difference(claimed@.to_set()),
{
    let mut out = ids;
    let mut i: usize = 0;
    proof {
        lemma_u32_keys_ordered();
        assert(claimed@.take(0).to_set() =~= Set::empty());
        assert(out@ =~= ids@.difference(claimed@.take(0).to_set()));
    }
    while i < claimed.len()
        invariant
            i <= claimed.len(),
            u32_keys_ordered(),
            out@ == ids@.difference(claimed@.take(i as int).to_set()),
        decreases claimed.len() - i,
    {
        let ghost prev = out@;
        out.remove(&claimed[i]);
        proof {
            let a = claimed@.take(i as int);
            let b = claimed@.take(i + 1);
            assert(b =~= a.push(claimed@[i as int]));
            assert forall|x: u32| b.to_set().contains(x) == (a.to_set().contains(x) || x
                == claimed@[i as int]) by {
                if a.contains(x) {
                    let j = choose|j: int| 0 <= j < a.len() && a[j] == x;
                    assert(b[j] == x);
                }
                if x == claimed@[i as int] {
                    assert(b[i as int] == x);
                }
            }
            assert(out@ =~= ids@.difference(b.to_set()));
        }
        i += 1;
    }
    proof {
        assert(claimed@.take(claimed@.len() as int) =~= claimed@);
    }
    out
}

/// Takes the claimed bounties out of every account.
pub fn strip(accounts: Vec<Account>, claimed: &Vec<u32>) -> (r: Vec<Account>)
    ensures
        views(r@) == stripped(views(accounts@), claimed@.to_set()),
{
    let mut out: Vec<Account> = Vec::new();
    let ghost before = accounts@;
    for account in it: accounts
        invariant
            it.seq() == before,
            out@.len() == it.index(),
            forall|j: int|
                0 <= j < out@.len() ==> (#[trigger] out@[j])@ == stripped_account(
                    before[j]@,
                    claimed@.to_set(),
                ),
    {
        let ids = without_claimed(account.child_bounty_ids, claimed);
        out.push(
            Account {
                id: account.id,
                address: account.address,
                identity: account.identity,
                disabled: account.disabled,
                child_bounty_ids: ids,
                balance: account.balance,
            },
        );
    }
    assert(views(out@) =~= stripped(views(before), claimed@.to_set()));
    out
}

/// Takes the claimed bounties out of the cache.
pub fn remove_claimed(bounties: ChildBounties, claimed: &Vec<u32>) -> (r: ChildBounties)
    ensures
        r@ == bounties@.remove_keys(claimed@.to_set()),
{
    let mut out = bounties;
    let mut i: usize = 0;
    proof {
        lemma_u32_keys_ordered();
        assert(claimed@.take(0).to_set() =~= Set::empty());
        assert(out@ =~= bounties@.remove_keys(claimed@.take(0).to_set()));
    }
    while i < claimed.len()
        invariant
            i <= claimed.len(),
            u32_keys_ordered(),
            out@ == bounties@.remove_keys(claimed@.take(i as int).to_set()),
        decreases claimed.len() - i,
    {
        out.remove(&claimed[i]);
        proof {
            let a = claimed@.take(i as int);
            let b = claimed@.take(i + 1);
            assert(b =~= a.push(claimed@[i as int]));
            assert forall|x: u32| b.to_set().contains(x) == (a.to_set().contains(x) || x
                == claimed@[i as int]) by {
                if a.contains(x) {
                    let j = choose|j: int| 0 <= j < a.len() && a[j] == x;
                    assert(b[j] == x);
                }
                if x == claimed@[i as int] {
                    assert(b[i as int] == x);
                }
            }
            assert(out@ =~= bounties@.remove_keys(b.to_set()));
        }
        i += 1;
    }
    proof {
        assert(claimed@.take(claimed@.len() as int) =~= claimed@);
    }
    out
}

/// Drops the account with the given id.
pub fn remove_account(accounts: Vec<Account>, id: u32) -> (r: Vec<Account>)
    ensures
        views(r@) == without_id(views(accounts@), id),
{
    let mut out: Vec<Account> = Vec::new();
    let ghost before = views(accounts@);
    let ghost keep = |a: AccountView| a.id != id;
    proof {
        reveal(Seq::filter);
        assert(before.take(0) =~= Seq::empty());
        assert(views(out@) =~= before.take(0).filter(keep));
    }
    for account in it: accounts
        invariant
            views(it.seq()) == before,
            keep == |a: AccountView| a.id != id,
            views(out@) == before.take(it.index()).filter(keep),
    {
        proof {
            let i = it.index();
            reveal(Seq::filter);
            assert(before.take(i + 1).drop_last() =~= before.take(i));
            assert(before[i] == it.seq()[i]@);
        }
        let ghost was = views(out@);
        if account.id != id {
            out.push(account);
            assert(views(out@) =~= was.push(account@));
        }
    }
    proof {
        assert(before.take(before.len() as int) =~= before);
    }
    out
}

/// Replaces the balance of the first account under `id`.
pub fn set_balance(accounts: Vec<Account>, id: u32, balance: Balance) -> (r: Vec<Account>)
    ensures
        views(r@) == with_balance(views(accounts@), id, balance),
{
    let mut out: Vec<Account> = Vec::new();
    let mut done = false;
    let ghost before = views(accounts@);
    proof {
        assert(before.skip(0) =~= before);
    }
    for account in it: accounts
        invariant
            views(it.seq()) == before,
            views(out@).len() == it.index(),
            with_balance(before, id, balance) == views(out@) + (if done {
                before.skip(it.index())
            } else {
                with_balance(before.skip(it.index()), id, balance)
            }),
    {
        proof {
            let i = it.index();
            let rest = before.skip(i);
            assert(rest.first() == before[i]);
            assert(rest.drop_first() =~= before.skip(i + 1));
            assert(before[i] == it.seq()[i]@);
        }
        let ghost was = views(out@);
        let ghost tail = before.skip(it.index() + 1);
        if !done && account.id == id {
            done = true;
            out.push(
                Account {
                    id: account.id,
                    address: account.address,
                    identity: account.identity,
                    disabled: account.disabled,
                    child_bounty_ids: account.child_bounty_ids,
                    balance,
                },
            );
            proof {
                let changed = AccountView { balance, ..account@ };
                assert(views(out@) =~= was.push(changed));
                assert(was + (seq![changed] + tail) =~= was.push(changed) + tail);
            }
        } else {
            out.push(account);
            proof {
                assert(views(out@) =~= was.push(account@));
                if done {
                    assert(was + before.skip(it.index() as int) =~= was.push(account@) + tail);
                } else {
                    assert(was + (seq![account@] + with_balance(tail, id, balance)) =~= was.push(
                        account@,
                    ) + with_balance(tail, id, balance));
                }
            }
        }
    }
    proof {
        assert(before.skip(before.len() as int) =~= Seq::empty());
        assert(views(out@) + Seq::<AccountView>::empty() =~= views(out@));
    }
    out
}

} // verus!
