//! The program's entry points, one for each transition.
use vstd::prelude::*;
use crate::add::{Add, add_outcome};
use crate::cancel::{Cancel, cancel_outcome};
use crate::create_list::CreateList;
use crate::error::TodoListError;
use crate::finish::{Finish, finish_outcome};
use crate::state::holds_key;

verus! {

/// Creates a list named `name` for the caller, with room for `capacity` items.
pub fn create_list(ctx: &mut CreateList, name: String, capacity: u16, account_bump: u8) -> (r: Result<(), TodoListError>)
    ensures
        r is Ok,
        final(ctx).user == old(ctx).user,
        final(ctx).list.list_owner == old(ctx).user,
        final(ctx).list.bump == account_bump,
        final(ctx).list.capacity == capacity,
        final(ctx).list.name@ == name@,
        final(ctx).list.lines@.len() == 0,
        final(ctx).list.wf(),
{
    crate::create_list::create_list(ctx, name, capacity, account_bump)
}

/// Adds an item named `item_name` with a bounty of `bounty` to the list.
pub fn add(ctx: &mut Add, list_name: String, item_name: String, bounty: u64) -> (r: Result<(), TodoListError>)
    requires
        old(ctx).list.wf(),
        !holds_key(old(ctx).list.lines@, old(ctx).item_key),
    ensures
        final(ctx).list.wf(),
        add_outcome(*old(ctx), *final(ctx), item_name@, bounty, r),
{
    crate::add::add(ctx, list_name, item_name, bounty)
}

/// Cancels an item of the list, refunding its bounty to its creator.
pub fn cancel(ctx: &mut Cancel, list_name: String) -> (r: Result<(), TodoListError>)
    requires
        old(ctx).list.wf(),
        old(ctx).item_lamports + old(ctx).item_creator_lamports <= u64::MAX,
    ensures
        final(ctx).list.wf(),
        cancel_outcome(*old(ctx), *final(ctx), r),
{
    crate::cancel::cancel(ctx, list_name)
}

/// Confirms an item of the list as finished on the caller's behalf.
pub fn finish(ctx: &mut Finish, list_name: String) -> (r: Result<(), TodoListError>)
    requires
        old(ctx).list.wf(),
        old(ctx).item_lamports + old(ctx).list_owner_lamports <= u64::MAX,
    ensures
        final(ctx).list.wf(),
        finish_outcome(*old(ctx), *final(ctx), r),
{
    crate::finish::finish(ctx, list_name)
}

} // verus!
