use vstd::prelude::*;
use crate::error::TodoListError;

verus! {

/// What a depositor of `bounty` moves into an item record that already holds
/// `reserved`: the rest of the bounty, so that the record then holds exactly
/// `bounty`.
pub fn deposit_amount(bounty: u64, reserved: u64) -> (r: Result<u64, TodoListError>)
    ensures
        bounty < reserved ==> r == Err::<u64, TodoListError>(TodoListError::BountyTooSmall),
        bounty >= reserved ==> r == Ok::<u64, TodoListError>((bounty - reserved) as u64),
{
    match bounty.checked_sub(reserved) {
        Some(d) => Ok(d),
        None => Err(TodoListError::BountyTooSmall),
    }
}

/// Moves `amount` from the balance `from` to the balance `to`; fails, moving
/// nothing, where `from` holds less.
pub fn move_value(from: &mut u64, to: &mut u64, amount: u64) -> (r: Result<(), TodoListError>)
    requires
        *old(to) + amount <= u64::MAX,
    ensures
        r is Ok <==> *old(from) >= amount,
        r is Err ==> r == Err::<(), TodoListError>(TodoListError::InsufficientFunds)
            && *final(from) == *old(from) && *final(to) == *old(to),
        r is Ok ==> *final(from) == *old(from) - amount && *final(to) == *old(to) + amount,
{
    if *from < amount {
        return Err(TodoListError::InsufficientFunds);
    }
    *from = *from - amount;
    *to = *to + amount;
    Ok(())
}

/// Moves the whole of `from` to `to`, leaving `from` empty.
pub fn sweep(from: &mut u64, to: &mut u64)
    requires
        *old(from) + *old(to) <= u64::MAX,
    ensures
        *final(from) == 0,
        *final(to) == *old(to) + *old(from),
{
    *to = *to + *from;
    *from = 0;
}

} // verus!
