//! Properties that relate the transitions, proved from their contracts.
use vstd::prelude::*;
use crate::add::{Add, add_outcome};
use crate::cancel::{Cancel, cancel_outcome};
use crate::error::TodoListError;
use crate::finish::{Finish, finish_outcome};
use crate::state::{holds_key, same_key};

verus! {

/// An add that names the right owner and brings enough value succeeds while the
/// list holds fewer than `capacity` items, growing it by one; once it holds
/// `capacity` items, the add fails with `ListFull` and the list keeps its
/// `capacity` items.
pub proof fn lemma_capacity_bounds_adds(before: Add, after: Add, item_name: Seq<char>, bounty: u64, r: Result<(), TodoListError>)
    requires
        before.list.wf(),
        same_key(before.list_owner, before.list.list_owner),
        bounty >= before.item_lamports,
        before.user_lamports >= bounty - before.item_lamports,
        add_outcome(before, after, item_name, bounty, r),
    ensures
        before.list.lines@.len() < before.list.capacity ==> r is Ok && after.list.lines@.len() == before.list.lines@.len() + 1,
        before.list.lines@.len() == before.list.capacity ==> r == Err::<(), TodoListError>(TodoListError::ListFull)
            && after.list.lines@.len() == before.list.capacity,
{
}

/// Whether `befores[k]` and `afters[k]` are the records before and after the
/// `k`-th of a run of adds to one list, each naming the right owner and
/// bringing enough value, the first of them on an empty list.
pub open spec fn is_add_run(
    befores: Seq<Add>,
    afters: Seq<Add>,
    names: Seq<Seq<char>>,
    bounties: Seq<u64>,
    results: Seq<Result<(), TodoListError>>,
) -> bool {
    &&& afters.len() == befores.len() && names.len() == befores.len()
    &&& bounties.len() == befores.len() && results.len() == befores.len()
    &&& befores.len() > 0 ==> befores[0].list.lines@.len() == 0
    &&& forall|k: int| #![trigger befores[k]] 0 <= k < befores.len() ==> {
        &&& befores[k].list.wf()
        &&& same_key(befores[k].list_owner, befores[k].list.list_owner)
        &&& bounties[k] >= befores[k].item_lamports
        &&& befores[k].user_lamports >= bounties[k] - befores[k].item_lamports
        &&& add_outcome(befores[k], afters[k], names[k], bounties[k], results[k])
    }
    &&& forall|k: int| #![trigger befores[k + 1]] 0 <= k < befores.len() - 1 ==> befores[k + 1].list == afters[k].list
}

/// In a run of adds to a fresh list of capacity `C`, the first `C` adds
/// succeed, the one after them fails with `ListFull`, and the list then holds
/// `C` items.
pub proof fn lemma_fresh_list_takes_capacity_adds(
    befores: Seq<Add>,
    afters: Seq<Add>,
    names: Seq<Seq<char>>,
    bounties: Seq<u64>,
    results: Seq<Result<(), TodoListError>>,
)
    requires
        is_add_run(befores, afters, names, bounties, results),
        befores.len() == befores[0].list.capacity + 1,
    ensures
        forall|k: int| 0 <= k < befores.len() - 1 ==> (#[trigger] results[k]) is Ok,
        results.last() == Err::<(), TodoListError>(TodoListError::ListFull),
        afters.last().list.lines@.len() == befores[0].list.capacity,
{
    let n = befores.len() - 1;
    lemma_add_run_counts(befores, afters, names, bounties, results, n);
    lemma_capacity_bounds_adds(befores[n], afters[n], names[n], bounties[n], results[n]);
}

/// In a run of adds as above, the `k`-th add finds the list holding `k` items
/// with its first capacity, and every add before it succeeded.
proof fn lemma_add_run_counts(
    befores: Seq<Add>,
    afters: Seq<Add>,
    names: Seq<Seq<char>>,
    bounties: Seq<u64>,
    results: Seq<Result<(), TodoListError>>,
    k: int,
)
    requires
        is_add_run(befores, afters, names, bounties, results),
        0 <= k < befores.len(),
        k <= befores[0].list.capacity,
    ensures
        befores[k].list.lines@.len() == k,
        befores[k].list.capacity == befores[0].list.capacity,
        forall|j: int| 0 <= j < k ==> (#[trigger] results[j]) is Ok,
    decreases k,
{
    if k > 0 {
        lemma_add_run_counts(befores, afters, names, bounties, results, k - 1);
        lemma_capacity_bounds_adds(befores[k - 1], afters[k - 1], names[k - 1], bounties[k - 1], results[k - 1]);
        assert(befores[(k - 1) + 1].list == afters[k - 1].list);
    }
}

/// A bounty below the balance that the new item record already holds is
/// refused with `BountyTooSmall`, leaving every record and balance as it was; a
/// bounty at least that large, when the add succeeds, leaves the item holding
/// exactly the bounty.
pub proof fn lemma_bounty_covers_reserve(before: Add, after: Add, item_name: Seq<char>, bounty: u64, r: Result<(), TodoListError>)
    requires
        same_key(before.list_owner, before.list.list_owner),
        before.list.lines@.len() < before.list.capacity,
        add_outcome(before, after, item_name, bounty, r),
    ensures
        bounty < before.item_lamports ==> r == Err::<(), TodoListError>(TodoListError::BountyTooSmall) && after == before,
        bounty >= before.item_lamports && r is Ok ==> after.item_lamports == bounty,
{
}

/// A cancellation pays the item's whole balance to the item's creator and to
/// nobody else, takes exactly one item out of the list, and a second
/// cancellation of the same item fails with `ItemNotFound`.
pub proof fn lemma_cancel_refunds_creator_once(
    before: Cancel,
    mid: Cancel,
    after: Cancel,
    r1: Result<(), TodoListError>,
    r2: Result<(), TodoListError>,
)
    requires
        before.list.wf(),
        mid.list.wf(),
        cancel_outcome(before, mid, r1),
        cancel_outcome(mid, after, r2),
        r1 is Ok,
    ensures
        same_key(mid.item_creator, mid.item.creator),
        mid.item_creator_lamports == before.item_creator_lamports + before.item_lamports,
        mid.item_lamports == 0,
        mid.list.lines@.len() == before.list.lines@.len() - 1,
        r2 == Err::<(), TodoListError>(TodoListError::ItemNotFound),
{
}

/// A confirmation moves value only once both the owner and the creator have
/// confirmed; confirming again in the same role changes nothing, and once the
/// item is paid out, any further confirmation fails with `ItemNotFound`.
pub proof fn lemma_finish_needs_both_and_is_idempotent(
    before: Finish,
    mid: Finish,
    after: Finish,
    r1: Result<(), TodoListError>,
    r2: Result<(), TodoListError>,
)
    requires
        before.list.wf(),
        mid.list.wf(),
        finish_outcome(before, mid, r1),
        finish_outcome(mid, after, r2),
        r1 is Ok,
    ensures
        mid.item_lamports != before.item_lamports || mid.list_owner_lamports != before.list_owner_lamports
            ==> mid.item.list_owner_finished && mid.item.creator_finished,
        mid.item.list_owner_finished && mid.item.creator_finished
            ==> r2 == Err::<(), TodoListError>(TodoListError::ItemNotFound),
        !(mid.item.list_owner_finished && mid.item.creator_finished) ==> {
            &&& r2 is Ok
            &&& after.item == mid.item
            &&& after.item_lamports == mid.item_lamports
            &&& after.list_owner_lamports == mid.list_owner_lamports
            &&& after.list.lines@ == mid.list.lines@
        },
{
}

/// Each transition on a list whose recorded owner differs from the owner the
/// caller names fails with `WrongListOwner` and changes nothing.
pub proof fn lemma_wrong_owner_rejected(
    a: Add,
    a2: Add,
    item_name: Seq<char>,
    bounty: u64,
    ra: Result<(), TodoListError>,
    c: Cancel,
    c2: Cancel,
    rc: Result<(), TodoListError>,
    f: Finish,
    f2: Finish,
    rf: Result<(), TodoListError>,
)
    requires
        add_outcome(a, a2, item_name, bounty, ra),
        cancel_outcome(c, c2, rc),
        finish_outcome(f, f2, rf),
    ensures
        !same_key(a.list_owner, a.list.list_owner) ==> ra == Err::<(), TodoListError>(TodoListError::WrongListOwner) && a2 == a,
        !same_key(c.list_owner, c.list.list_owner) ==> rc == Err::<(), TodoListError>(TodoListError::WrongListOwner) && c2 == c,
        !same_key(f.list_owner, f.list.list_owner) ==> rf == Err::<(), TodoListError>(TodoListError::WrongListOwner) && f2 == f,
{
}

} // verus!
