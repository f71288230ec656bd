use vstd::prelude::*;
use vstd::string::StringSliceAdditionalSpecFns;
use crate::error::TodoListError;
use crate::state::{Pubkey, TodoList};

verus! {

/// The most bytes of a list's name that go into the list's address.
pub const NAME_SEED_LEN: usize = 32;

/// The part of a name's bytes that goes into a list's address: the first
/// `NAME_SEED_LEN` bytes, or all of them where there are no more.
pub open spec fn seed_of(b: Seq<u8>) -> Seq<u8> {
    if b.len() > NAME_SEED_LEN {
        b.subrange(0, NAME_SEED_LEN as int)
    } else {
        b
    }
}

/// The bounded prefix of `name` from which a list's address is derived.
pub fn name_seed(name: &str) -> (r: &[u8])
    ensures
        r@ == seed_of(name.spec_bytes()),
{
    let b = name.as_bytes();
    if b.len() > NAME_SEED_LEN {
        vstd::slice::slice_subrange(b, 0, NAME_SEED_LEN)
    } else {
        b
    }
}

/// The tag that opens the seeds of every list's address: the bytes of "todolist".
pub open spec fn list_tag() -> Seq<u8> {
    seq![116u8, 111u8, 100u8, 111u8, 108u8, 105u8, 115u8, 116u8]
}

/// The seeds from which the platform derives the address of the list that
/// `owner` names `name`: the tag, the owner's key, and the name's bounded
/// prefix. Two names that agree on their first `NAME_SEED_LEN` bytes give the
/// same seeds.
pub fn list_seeds(owner: &Pubkey, name: &str) -> (r: Vec<Vec<u8>>)
    ensures
        r@.len() == 3,
        r@[0]@ == list_tag(),
        r@[1]@ == owner.bytes@,
        r@[2]@ == seed_of(name.spec_bytes()),
{
    let tag: Vec<u8> = vec![116u8, 111u8, 100u8, 111u8, 108u8, 105u8, 115u8, 116u8];
    let mut r: Vec<Vec<u8>> = Vec::new();
    r.push(tag);
    r.push(vstd::slice::slice_to_vec(owner.bytes.as_slice()));
    r.push(vstd::slice::slice_to_vec(name_seed(name)));
    assert(r@[0]@ =~= list_tag());
    r
}

/// The records that `create_list` touches: the new list record and the
/// principal that creates and funds it.
#[derive(Clone, Debug)]
pub struct CreateList {
    pub list: TodoList,
    pub user: Pubkey,
}

/// Fills a newly allocated list record: the caller becomes its owner, and it
/// starts with no items.
pub fn create_list(ctx: &mut CreateList, name: String, capacity: u16, account_bump: u8) -> (r: Result<(), TodoListError>)
    ensures
        r is Ok,
        final(ctx).user == old(ctx).user,
        final(ctx).list.list_owner == old(ctx).user,
        final(ctx).list.bump == account_bump,
        final(ctx).list.capacity == capacity,
        final(ctx).list.name@ == name@,
        final(ctx).list.lines@.len() == 0,
        final(ctx).list.wf(),
{
    ctx.list.list_owner = ctx.user;
    ctx.list.bump = account_bump;
    ctx.list.name = name;
    ctx.list.capacity = capacity;
    ctx.list.lines = Vec::new();
    Ok(())
}

} // verus!
