//! An escrowed to-do list: lists of bounded capacity whose items carry a
//! bounty, refunded to the item's creator on cancellation or paid to the list
//! owner once both the owner and the creator confirm the item as finished.
//!
//! The modules hold the state transitions applied atomically to the list and
//! item records; each transition either returns `Ok` with all of its effects
//! applied, or an error with the records left exactly as they were.

pub mod error;
pub mod state;
pub mod escrow;
pub mod create_list;
pub mod add;
pub mod cancel;
pub mod finish;
pub mod sol_todo_list;
pub mod laws;
