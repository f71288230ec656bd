use vstd::prelude::*;
use vstd::string::StringSliceAdditionalSpecFns;

verus! {

/// The identity of a principal or of a record: 32 bytes.
#[derive(Clone, Copy, Debug)]
pub struct Pubkey {
    pub bytes: [u8; 32],
}

impl Pubkey {
    pub fn new(bytes: [u8; 32]) -> (r: Pubkey)
        ensures
            r.bytes@ == bytes@,
    {
        Pubkey { bytes }
    }

    /// The key whose 32 bytes all equal `b`.
    pub fn filled(b: u8) -> (r: Pubkey)
        ensures
            r.bytes@ == Seq::new(32, |i: int| b),
    {
        let r = Pubkey { bytes: [b; 32] };
        assert(r.bytes@ =~= Seq::new(32, |i: int| b));
        r
    }
}

impl PartialEq for Pubkey {
    fn eq(&self, o: &Pubkey) -> (r: bool)
        ensures
            r == (self.bytes@ == o.bytes@),
    {
        let mut i: usize = 0;
        while i < 32
            invariant
                0 <= i <= 32,
                forall|j: int| 0 <= j < i ==> self.bytes@[j] == o.bytes@[j],
            decreases 32 - i,
        {
            if self.bytes[i] != o.bytes[i] {
                return false;
            }
            i = i + 1;
        }
        assert(self.bytes@ =~= o.bytes@);
        true
    }
}

impl vstd::std_specs::cmp::PartialEqSpecImpl for Pubkey {
    open spec fn obeys_eq_spec() -> bool {
        true
    }

    open spec fn eq_spec(&self, o: &Pubkey) -> bool {
        self.bytes@ == o.bytes@
    }
}

impl Eq for Pubkey {
}

/// Two keys stand for the same identity when their bytes agree.
pub open spec fn same_key(a: Pubkey, b: Pubkey) -> bool {
    a.bytes@ == b.bytes@
}

/// Whether the key `k` stands in `s`.
pub open spec fn holds_key(s: Seq<Pubkey>, k: Pubkey) -> bool {
    exists|i: int| 0 <= i < s.len() && same_key(s[i], k)
}

/// A list of tasks, owned by the principal that created it.
#[derive(Clone, Debug)]
pub struct TodoList {
    /// The principal that created the list.
    pub list_owner: Pubkey,
    /// The nonce that went into the list's address.
    pub bump: u8,
    /// How many items the list may hold at once.
    pub capacity: u16,
    /// The list's display name.
    pub name: String,
    /// The keys of the open items, in the order in which they were added.
    pub lines: Vec<Pubkey>,
}

impl TodoList {
    /// The list holds at most `capacity` items, each of them once.
    pub open spec fn wf(&self) -> bool {
        &&& self.lines@.len() <= self.capacity as int
        &&& forall|i: int, j: int|
            0 <= i < j < self.lines@.len() ==> !same_key(#[trigger] self.lines@[i], #[trigger] self.lines@[j])
    }

    /// Where `key` stands among the list's items, if it does.
    pub fn find_line(&self, key: &Pubkey) -> (r: Option<usize>)
        ensures
            r is None <==> !holds_key(self.lines@, *key),
            r matches Some(i) ==> i < self.lines@.len() && same_key(self.lines@[i as int], *key),
    {
        let mut i: usize = 0;
        while i < self.lines.len()
            invariant
                0 <= i <= self.lines@.len(),
                forall|j: int| 0 <= j < i ==> !same_key(#[trigger] self.lines@[j], *key),
            decreases self.lines@.len() - i,
        {
            if self.lines[i] == *key {
                return Some(i);
            }
            i = i + 1;
        }
        None
    }

    /// Takes the item at `index` out of the list, keeping the others in order.
    pub fn remove_line(&mut self, index: usize)
        requires
            old(self).wf(),
            index < old(self).lines@.len(),
        ensures
            final(self).wf(),
            final(self).lines@ == old(self).lines@.remove(index as int),
            !holds_key(final(self).lines@, old(self).lines@[index as int]),
            final(self).list_owner == old(self).list_owner,
            final(self).bump == old(self).bump,
            final(self).capacity == old(self).capacity,
            final(self).name == old(self).name,
    {
        let ghost before = self.lines@;
        self.lines.remove(index);
        assert forall|i: int| 0 <= i < self.lines@.len() implies !same_key(self.lines@[i], before[index as int]) by {
            if i < index {
                assert(!same_key(before[i], before[index as int]));
            } else {
                assert(!same_key(before[index as int], before[i + 1]));
            }
        }
        assert forall|i: int, j: int| 0 <= i < j < self.lines@.len() implies !same_key(#[trigger] self.lines@[i], #[trigger] self.lines@[j]) by {
            let bi = if i < index { i } else { i + 1 };
            let bj = if j < index { j } else { j + 1 };
            assert(!same_key(before[bi], before[bj]));
        }
    }

    /// The bytes that a list record with this name and capacity takes up.
    pub open spec fn space_of(name_len: int, capacity: int) -> int {
        8 + 32 + 1 + 2 + 4 + name_len + 4 + capacity * 32
    }

    /// The storage that a list record needs: an 8-byte tag, the owner, the
    /// nonce, the capacity, the length-prefixed name and the length-prefixed
    /// sequence of `capacity` keys.
    pub fn space(name: &str, capacity: u16) -> (r: usize)
        requires
            name.spec_bytes().len() + 51 + 32 * 65535 <= usize::MAX,
        ensures
            r == Self::space_of(name.spec_bytes().len() as int, capacity as int),
    {
        8 + 32 + 1 + 2 + 4 + name.len() + 4 + (capacity as usize) * 32
    }
}

/// A task of a list, with the two confirmations that finish it.
#[derive(Clone, Debug)]
pub struct ListItem {
    /// The principal that added the item and funded its bounty.
    pub creator: Pubkey,
    /// Whether the creator has confirmed the item as finished.
    pub creator_finished: bool,
    /// Whether the list owner has confirmed the item as finished.
    pub list_owner_finished: bool,
    /// The item's display name.
    pub name: String,
}

impl ListItem {
    /// The bytes that an item record with this name takes up.
    pub open spec fn space_of(name_len: int) -> int {
        8 + 32 + 1 + 1 + 4 + name_len
    }

    /// The storage that an item record needs: an 8-byte tag, the creator, the
    /// two confirmations and the length-prefixed name.
    pub fn space(name: &str) -> (r: usize)
        requires
            name.spec_bytes().len() + 46 <= usize::MAX,
        ensures
            r == Self::space_of(name.spec_bytes().len() as int),
    {
        8 + 32 + 1 + 1 + 4 + name.len()
    }
}

} // verus!
