use vstd::prelude::*;
use crate::error::TodoListError;
use crate::escrow::sweep;
use crate::state::{holds_key, same_key, ListItem, Pubkey, TodoList};

verus! {

/// The records that `finish` touches.
#[derive(Clone, Debug)]
pub struct Finish {
    /// The list that holds the item.
    pub list: TodoList,
    /// The owner that the caller names for the list.
    pub list_owner: Pubkey,
    /// The balance of the named owner.
    pub list_owner_lamports: u64,
    /// The key of the item record.
    pub item_key: Pubkey,
    /// The item record.
    pub item: ListItem,
    /// The item's custodial balance: its bounty.
    pub item_lamports: u64,
    /// The creator that the caller names for the item.
    pub item_creator: Pubkey,
    /// The caller.
    pub user: Pubkey,
}

/// The error that `finish` returns on these records, if any.
pub open spec fn finish_error(ctx: Finish) -> Option<TodoListError> {
    if !same_key(ctx.list_owner, ctx.list.list_owner) {
        Some(TodoListError::WrongListOwner)
    } else if !same_key(ctx.item_creator, ctx.item.creator) {
        Some(TodoListError::WrongItemCreator)
    } else if !holds_key(ctx.list.lines@, ctx.item_key) {
        Some(TodoListError::ItemNotFound)
    } else if ctx.item.list_owner_finished && ctx.item.creator_finished {
        Some(TodoListError::ItemAlreadyFinished)
    } else if !same_key(ctx.user, ctx.list.list_owner) && !same_key(ctx.user, ctx.item.creator) {
        Some(TodoListError::WrongFinishPermission)
    } else {
        None
    }
}

/// The owner's confirmation after a successful `finish` by the caller.
pub open spec fn owner_confirmed_after(ctx: Finish) -> bool {
    ctx.item.list_owner_finished || same_key(ctx.user, ctx.list.list_owner)
}

/// The creator's confirmation after a successful `finish` by the caller.
pub open spec fn creator_confirmed_after(ctx: Finish) -> bool {
    ctx.item.creator_finished || same_key(ctx.user, ctx.item.creator)
}

/// What `finish` does: on an error, nothing; otherwise the effects below.
pub open spec fn finish_outcome(before: Finish, after: Finish, r: Result<(), TodoListError>) -> bool {
    match finish_error(before) {
        Some(e) => r == Err::<(), TodoListError>(e) && after == before,
        None => {
            &&& r is Ok
            &&& after.item.list_owner_finished == owner_confirmed_after(before)
            &&& after.item.creator_finished == creator_confirmed_after(before)
            &&& after.item.creator == before.item.creator
            &&& after.item.name == before.item.name
            &&& if owner_confirmed_after(before) && creator_confirmed_after(before) {
                &&& exists|i: int|
                    0 <= i < before.list.lines@.len() && same_key(#[trigger] before.list.lines@[i], before.item_key)
                        && after.list.lines@ == before.list.lines@.remove(i)
                &&& !holds_key(after.list.lines@, before.item_key)
                &&& after.item_lamports == 0
                &&& after.list_owner_lamports == before.list_owner_lamports + before.item_lamports
            } else {
                &&& after.list.lines@ == before.list.lines@
                &&& after.item_lamports == before.item_lamports
                &&& after.list_owner_lamports == before.list_owner_lamports
            }
            &&& after.list.list_owner == before.list.list_owner
            &&& after.list.bump == before.list.bump
            &&& after.list.capacity == before.list.capacity
            &&& after.list.name == before.list.name
            &&& after.item_key == before.item_key
            &&& after.item_creator == before.item_creator
            &&& after.list_owner == before.list_owner
            &&& after.user == before.user
        },
    }
}

/// Records the caller's confirmation of an item, as list owner, as item creator,
/// or as both. Once both have confirmed, the item's whole balance goes to the
/// list owner and the item leaves the list, in the same step.
pub fn finish(ctx: &mut Finish, _list_name: String) -> (r: Result<(), TodoListError>)
    requires
        old(ctx).list.wf(),
        old(ctx).item_lamports + old(ctx).list_owner_lamports <= u64::MAX,
    ensures
        final(ctx).list.wf(),
        finish_outcome(*old(ctx), *final(ctx), r),
{
    if ctx.list_owner != ctx.list.list_owner {
        return Err(TodoListError::WrongListOwner);
    }
    if ctx.item_creator != ctx.item.creator {
        return Err(TodoListError::WrongItemCreator);
    }
    let index = match ctx.list.find_line(&ctx.item_key) {
        Some(i) => i,
        None => {
            return Err(TodoListError::ItemNotFound);
        },
    };
    if ctx.item.list_owner_finished && ctx.item.creator_finished {
        return Err(TodoListError::ItemAlreadyFinished);
    }
    let is_owner = ctx.user == ctx.list.list_owner;
    let is_creator = ctx.user == ctx.item.creator;
    if !is_owner && !is_creator {
        return Err(TodoListError::WrongFinishPermission);
    }
    if is_owner {
        ctx.item.list_owner_finished = true;
    }
    if is_creator {
        ctx.item.creator_finished = true;
    }
    if ctx.item.list_owner_finished && ctx.item.creator_finished {
        sweep(&mut ctx.item_lamports, &mut ctx.list_owner_lamports);
        let ghost before = ctx.list.lines@;
        ctx.list.remove_line(index);
        assert(same_key(before[index as int], ctx.item_key));
        assert(!holds_key(ctx.list.lines@, ctx.item_key)) by {
            if holds_key(ctx.list.lines@, ctx.item_key) {
                let k = choose|k: int| 0 <= k < ctx.list.lines@.len() && same_key(ctx.list.lines@[k], ctx.item_key);
                assert(same_key(ctx.list.lines@[k], before[index as int]));
            }
        }
    }
    Ok(())
}

} // verus!
