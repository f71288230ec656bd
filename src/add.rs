use vstd::prelude::*;
use crate::error::TodoListError;
use crate::escrow::{deposit_amount, move_value};
use crate::state::{holds_key, same_key, ListItem, Pubkey, TodoList};

verus! {

/// The records that `add` touches.
#[derive(Clone, Debug)]
pub struct Add {
    /// The list that receives the item.
    pub list: TodoList,
    /// The owner that the caller names for the list.
    pub list_owner: Pubkey,
    /// The key of the newly allocated item record.
    pub item_key: Pubkey,
    /// The newly allocated item record.
    pub item: ListItem,
    /// The balance of the item record: when `add` runs, the minimum that keeps
    /// the record alive.
    pub item_lamports: u64,
    /// The caller, who creates the item and funds its bounty.
    pub user: Pubkey,
    /// The caller's balance.
    pub user_lamports: u64,
}

/// The error that `add` returns on these records, if any.
pub open spec fn add_error(ctx: Add, bounty: u64) -> Option<TodoListError> {
    if !same_key(ctx.list_owner, ctx.list.list_owner) {
        Some(TodoListError::WrongListOwner)
    } else if ctx.list.lines@.len() >= ctx.list.capacity {
        Some(TodoListError::ListFull)
    } else if bounty < ctx.item_lamports {
        Some(TodoListError::BountyTooSmall)
    } else if ctx.user_lamports < bounty - ctx.item_lamports {
        Some(TodoListError::InsufficientFunds)
    } else {
        None
    }
}

/// What `add` does: on an error, nothing; otherwise the effects below.
pub open spec fn add_outcome(before: Add, after: Add, item_name: Seq<char>, bounty: u64, r: Result<(), TodoListError>) -> bool {
    match add_error(before, bounty) {
        Some(e) => r == Err::<(), TodoListError>(e) && after == before,
        None => {
            &&& r is Ok
            &&& after.list.lines@ == before.list.lines@.push(before.item_key)
            &&& after.list.list_owner == before.list.list_owner
            &&& after.list.bump == before.list.bump
            &&& after.list.capacity == before.list.capacity
            &&& after.list.name == before.list.name
            &&& after.item.creator == before.user
            &&& after.item.name@ == item_name
            &&& !after.item.creator_finished
            &&& !after.item.list_owner_finished
            &&& after.item_lamports == bounty
            &&& after.user_lamports == before.user_lamports - (bounty - before.item_lamports)
            &&& after.item_key == before.item_key
            &&& after.user == before.user
            &&& after.list_owner == before.list_owner
        },
    }
}

/// Adds a new item with a bounty of `bounty` to the list: the item records the
/// caller as its creator, is appended to the list's items, and is topped up from
/// the caller's balance so that it holds exactly `bounty`.
pub fn add(ctx: &mut Add, _list_name: String, item_name: String, bounty: u64) -> (r: Result<(), TodoListError>)
    requires
        old(ctx).list.wf(),
        !holds_key(old(ctx).list.lines@, old(ctx).item_key),
    ensures
        final(ctx).list.wf(),
        add_outcome(*old(ctx), *final(ctx), item_name@, bounty, r),
{
    if ctx.list_owner != ctx.list.list_owner {
        return Err(TodoListError::WrongListOwner);
    }
    if ctx.list.lines.len() >= ctx.list.capacity as usize {
        return Err(TodoListError::ListFull);
    }
    let transfer_amount = match deposit_amount(bounty, ctx.item_lamports) {
        Ok(d) => d,
        Err(e) => {
            return Err(e);
        },
    };
    if transfer_amount > 0 {
        let r = move_value(&mut ctx.user_lamports, &mut ctx.item_lamports, transfer_amount);
        if r.is_err() {
            return Err(TodoListError::InsufficientFunds);
        }
    }
    let ghost before = ctx.list.lines@;
    ctx.list.lines.push(ctx.item_key);
    assert forall|i: int, j: int| 0 <= i < j < ctx.list.lines@.len() implies !same_key(#[trigger] ctx.list.lines@[i], #[trigger] ctx.list.lines@[j]) by {
        if j == before.len() {
            assert(!same_key(before[i], ctx.item_key));
        } else {
            assert(!same_key(before[i], before[j]));
        }
    }
    ctx.item.name = item_name;
    ctx.item.creator = ctx.user;
    ctx.item.creator_finished = false;
    ctx.item.list_owner_finished = false;
    Ok(())
}

} // verus!
