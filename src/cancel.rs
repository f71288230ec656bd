use vstd::prelude::*;
use crate::error::TodoListError;
use crate::escrow::sweep;
use crate::state::{holds_key, same_key, ListItem, Pubkey, TodoList};

verus! {

/// The records that `cancel` touches.
#[derive(Clone, Debug)]
pub struct Cancel {
    /// The list that holds the item.
    pub list: TodoList,
    /// The owner that the caller names for the list.
    pub list_owner: Pubkey,
    /// The key of the item record.
    pub item_key: Pubkey,
    /// The item record.
    pub item: ListItem,
    /// The item's custodial balance: its bounty.
    pub item_lamports: u64,
    /// The creator that the caller names for the item.
    pub item_creator: Pubkey,
    /// The balance of the named creator.
    pub item_creator_lamports: u64,
    /// The caller.
    pub user: Pubkey,
}

/// The error that `cancel` returns on these records, if any.
pub open spec fn cancel_error(ctx: Cancel) -> Option<TodoListError> {
    if !same_key(ctx.list_owner, ctx.list.list_owner) {
        Some(TodoListError::WrongListOwner)
    } else if !same_key(ctx.item_creator, ctx.item.creator) {
        Some(TodoListError::WrongItemCreator)
    } else if !same_key(ctx.user, ctx.list.list_owner) && !same_key(ctx.user, ctx.item.creator) {
        Some(TodoListError::WrongCancelPermission)
    } else if !holds_key(ctx.list.lines@, ctx.item_key) {
        Some(TodoListError::ItemNotFound)
    } else {
        None
    }
}

/// What `cancel` does: on an error, nothing; otherwise the effects below.
pub open spec fn cancel_outcome(before: Cancel, after: Cancel, r: Result<(), TodoListError>) -> bool {
    match cancel_error(before) {
        Some(e) => r == Err::<(), TodoListError>(e) && after == before,
        None => {
            &&& r is Ok
            &&& exists|i: int|
                0 <= i < before.list.lines@.len() && same_key(#[trigger] before.list.lines@[i], before.item_key)
                    && after.list.lines@ == before.list.lines@.remove(i)
            &&& !holds_key(after.list.lines@, before.item_key)
            &&& after.item_lamports == 0
            &&& after.item_creator_lamports == before.item_creator_lamports + before.item_lamports
            &&& after.list.list_owner == before.list.list_owner
            &&& after.list.bump == before.list.bump
            &&& after.list.capacity == before.list.capacity
            &&& after.list.name == before.list.name
            &&& after.item == before.item
            &&& after.item_key == before.item_key
            &&& after.item_creator == before.item_creator
            &&& after.list_owner == before.list_owner
            &&& after.user == before.user
        },
    }
}

/// Cancels an item: its whole balance goes back to its creator, whoever the
/// caller is, and it leaves the list.
pub fn cancel(ctx: &mut Cancel, _list_name: String) -> (r: Result<(), TodoListError>)
    requires
        old(ctx).list.wf(),
        old(ctx).item_lamports + old(ctx).item_creator_lamports <= u64::MAX,
    ensures
        final(ctx).list.wf(),
        cancel_outcome(*old(ctx), *final(ctx), r),
{
    if ctx.list_owner != ctx.list.list_owner {
        return Err(TodoListError::WrongListOwner);
    }
    if ctx.item_creator != ctx.item.creator {
        return Err(TodoListError::WrongItemCreator);
    }
    if ctx.user != ctx.list.list_owner && ctx.user != ctx.item.creator {
        return Err(TodoListError::WrongCancelPermission);
    }
    let index = match ctx.list.find_line(&ctx.item_key) {
        Some(i) => i,
        None => {
            return Err(TodoListError::ItemNotFound);
        },
    };
    sweep(&mut ctx.item_lamports, &mut ctx.item_creator_lamports);
    let ghost before = ctx.list.lines@;
    ctx.list.remove_line(index);
    assert(same_key(before[index as int], ctx.item_key));
    assert(!holds_key(ctx.list.lines@, ctx.item_key)) by {
        if holds_key(ctx.list.lines@, ctx.item_key) {
            let k = choose|k: int| 0 <= k < ctx.list.lines@.len() && same_key(ctx.list.lines@[k], ctx.item_key);
            assert(same_key(ctx.list.lines@[k], before[index as int]));
        }
    }
    Ok(())
}

} // verus!
