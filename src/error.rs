use vstd::prelude::*;

verus! {

/// The ways a transition can be rejected.
#[derive(Clone, Copy, Debug, PartialEq, Eq, Structural)]
pub enum TodoListError {
    /// An item was added to a list that already holds `capacity` items.
    ListFull,
    /// The owner named by the caller is not the owner recorded in the list.
    WrongListOwner,
    /// The bounty does not cover the balance that keeps the item record alive.
    BountyTooSmall,
    /// The caller of a cancellation is neither the list owner nor the item creator.
    WrongCancelPermission,
    /// The item is not a current member of the list.
    ItemNotFound,
    /// The creator named by the caller is not the creator recorded in the item.
    WrongItemCreator,
    /// The caller of a confirmation is neither the list owner nor the item creator.
    WrongFinishPermission,
    /// Both parties have already confirmed the item.
    ItemAlreadyFinished,
    /// The payer does not hold the amount that a deposit moves.
    InsufficientFunds,
}

impl TodoListError {
    /// The message shown to a user for this error.
    pub fn message(&self) -> (r: String) {
        match self {
            TodoListError::ListFull => "This list is full".to_string(),
            TodoListError::WrongListOwner => "Specified list owner does not match the pubkey in the list".to_string(),
            TodoListError::BountyTooSmall => "Bounty must be enough to mark account rent-exempt".to_string(),
            TodoListError::WrongCancelPermission => "Only list owner or item creator can cancel item".to_string(),
            TodoListError::ItemNotFound => "Item not found".to_string(),
            TodoListError::WrongItemCreator => "Item creator is not correct".to_string(),
            TodoListError::WrongFinishPermission => "Only list owner or item creator can finish item".to_string(),
            TodoListError::ItemAlreadyFinished => "Item is already finished".to_string(),
            TodoListError::InsufficientFunds => "The payer cannot cover the bounty".to_string(),
        }
    }
}

} // verus!
