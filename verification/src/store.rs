//! A store of records, each kept at its own address.

use crate::address::Address;
use crate::error::StoreError;
use crate::record::Record;
use vstd::prelude::*;

verus! {

/// What the store keeps at one address.
pub struct Slot {
    /// The record itself.
    pub record: Record,
    /// The space that was reserved for the record when it was created.
    pub space: usize,
}

/// Names a record that the store has created.
#[derive(Clone, Copy, Debug, PartialEq, Eq)]
pub struct Handle {
    /// Where the record lives.
    pub address: Address,
    /// The space that was reserved for it.
    pub space: usize,
}

struct Entry {
    address: Address,
    slot: Slot,
}

/// The map that a sequence of entries stands for.
spec fn entries_map(entries: Seq<Entry>) -> Map<Seq<u8>, Slot>
    decreases entries.len(),
{
    if entries.len() == 0 {
        Map::empty()
    } else {
        entries_map(entries.drop_last()).insert(entries.last().address@, entries.last().slot)
    }
}

/// True when the entry in place `i` is the one for `address`.
spec fn is_entry_for(entries: Seq<Entry>, i: int, address: Seq<u8>) -> bool {
    0 <= i < entries.len() && entries[i].address@ == address
}

/// True when no two entries share an address.
spec fn distinct(entries: Seq<Entry>) -> bool {
    forall|i: int, j: int|
        0 <= i < j < entries.len() ==> (#[trigger] entries[i]).address@ != (
        #[trigger] entries[j]).address@
}

/// The map has a record at an address exactly where an entry is for it.
proof fn lemma_map_domain(entries: Seq<Entry>, address: Seq<u8>)
    ensures
        entries_map(entries).contains_key(address) <==> exists|i: int|
            is_entry_for(entries, i, address),
    decreases entries.len(),
{
    if entries.len() > 0 {
        let front = entries.drop_last();
        lemma_map_domain(front, address);
        if entries_map(entries).contains_key(address) {
            if entries.last().address@ == address {
                assert(is_entry_for(entries, entries.len() - 1, address));
            } else {
                let i = choose|i: int| is_entry_for(front, i, address);
                assert(is_entry_for(entries, i, address));
            }
        }
        if exists|i: int| is_entry_for(entries, i, address) {
            let i = choose|i: int| is_entry_for(entries, i, address);
            if i < entries.len() - 1 {
                assert(is_entry_for(front, i, address));
            }
        }
    }
}

/// Where the map has no record at an address, no entry is for it.
proof fn lemma_map_absent(entries: Seq<Entry>, address: Seq<u8>)
    requires
        !entries_map(entries).contains_key(address),
    ensures
        forall|i: int| 0 <= i < entries.len() ==> (#[trigger] entries[i]).address@ != address,
{
    lemma_map_domain(entries, address);
    assert forall|i: int| 0 <= i < entries.len() implies (#[trigger] entries[i]).address@
        != address by {
        assert(!is_entry_for(entries, i, address));
    }
}

/// Where no two entries share an address, the map holds at the address of
/// each entry what that entry holds.
proof fn lemma_map_value(entries: Seq<Entry>, i: int)
    requires
        distinct(entries),
        0 <= i < entries.len(),
    ensures
        entries_map(entries).contains_key(entries[i].address@),
        entries_map(entries)[entries[i].address@] == entries[i].slot,
    decreases entries.len(),
{
    let front = entries.drop_last();
    if i < entries.len() - 1 {
        lemma_map_value(front, i);
    }
}

/// Taking an entry out takes its address out of the map, and nothing else.
proof fn lemma_map_remove(entries: Seq<Entry>, i: int)
    requires
        distinct(entries),
        0 <= i < entries.len(),
    ensures
        distinct(entries.remove(i)),
        entries_map(entries.remove(i)) == entries_map(entries).remove(entries[i].address@),
    decreases entries.len(),
{
    let front = entries.drop_last();
    let rest = entries.remove(i);
    let address = entries[i].address@;
    assert(distinct(rest));
    if i == entries.len() - 1 {
        // The last entry goes: what remains is the front, which never held
        // its address.
        lemma_map_domain(front, address);
    } else {
        // An earlier entry goes: it goes from the front, and the last entry
        // stays.
        assert(distinct(front));
        lemma_map_remove(front, i);
        assert(rest.drop_last() =~= front.remove(i));
    }
}

/// Records kept at addresses: created once, changed in place, never removed.
pub struct RecordStore {
    entries: Vec<Entry>,
}

impl View for RecordStore {
    type V = Map<Seq<u8>, Slot>;

    /// What the store keeps, by the bytes of the address.
    closed spec fn view(&self) -> Map<Seq<u8>, Slot> {
        entries_map(self.entries@)
    }
}

impl RecordStore {
    /// No two entries of a store share an address.
    #[verifier::type_invariant]
    spec fn well_formed(self) -> bool {
        distinct(self.entries@)
    }

    /// A store that holds no record.
    pub fn new() -> (store: Self)
        ensures
            store@ == Map::<Seq<u8>, Slot>::empty(),
    {
        RecordStore { entries: Vec::new() }
    }

    /// The place of the entry for `address`, if the store has one.
    fn position(&self, address: &Address) -> (found: Option<usize>)
        ensures
            match found {
                Some(i) => i < self.entries@.len() && self.entries@[i as int].address@ == address@,
                None => !self@.contains_key(address@),
            },
    {
        let mut i: usize = 0;
        while i < self.entries.len()
            invariant
                i <= self.entries@.len(),
                forall|j: int| 0 <= j < i ==> (#[trigger] self.entries@[j]).address@ != address@,
            decreases self.entries@.len() - i,
        {
            if self.entries[i].address == *address {
                return Some(i);
            }
            i += 1;
        }
        proof {
            lemma_map_domain(self.entries@, address@);
        }
        None
    }

    /// Tells whether a record lives at `address`.
    pub fn contains(&self, address: &Address) -> (present: bool)
        ensures
            present == self@.contains_key(address@),
    {
        proof {
            use_type_invariant(self);
        }
        match self.position(address) {
            Some(i) => {
                proof {
                    lemma_map_value(self.entries@, i as int);
                }
                true
            },
            None => false,
        }
    }

    /// Looks up the record at `address`.
    pub fn get(&self, address: &Address) -> (found: Option<&Record>)
        ensures
            match found {
                Some(record) => self@.contains_key(address@) && *record == self@[address@].record,
                None => !self@.contains_key(address@),
            },
    {
        proof {
            use_type_invariant(self);
        }
        match self.position(address) {
            Some(i) => {
                proof {
                    lemma_map_value(self.entries@, i as int);
                }
                Some(&self.entries[i].slot.record)
            },
            None => None,
        }
    }

    /// Looks up the space reserved for the record at `address`.
    pub fn reserved_space(&self, address: &Address) -> (found: Option<usize>)
        ensures
            match found {
                Some(space) => self@.contains_key(address@) && space == self@[address@].space,
                None => !self@.contains_key(address@),
            },
    {
        proof {
            use_type_invariant(self);
        }
        match self.position(address) {
            Some(i) => {
                proof {
                    lemma_map_value(self.entries@, i as int);
                }
                Some(self.entries[i].slot.space)
            },
            None => None,
        }
    }

    /// Creates a record at `address`, with `required_space` reserved for it,
    /// unless a record lives there already.
    pub fn create_if_absent(
        &mut self,
        address: Address,
        initial: Record,
        required_space: usize,
    ) -> (created: Result<Handle, StoreError>)
        ensures
            old(self)@.contains_key(address@) ==> created == Err::<Handle, StoreError>(
                StoreError::AlreadyExists,
            ) && final(self)@ == old(self)@,
            !old(self)@.contains_key(address@) ==> created == Ok::<Handle, StoreError>(
                Handle { address, space: required_space },
            ) && final(self)@ == old(self)@.insert(
                address@,
                Slot { record: initial, space: required_space },
            ),
    {
        proof {
            use_type_invariant(&*self);
        }
        match self.position(&address) {
            Some(i) => {
                proof {
                    lemma_map_value(self.entries@, i as int);
                }
                Err(StoreError::AlreadyExists)
            },
            None => {
                proof {
                    lemma_map_absent(self.entries@, address@);
                }
                let mut entries = Vec::new();
                std::mem::swap(&mut entries, &mut self.entries);
                let ghost before = entries@;
                let slot = Slot { record: initial, space: required_space };
                entries.push(Entry { address, slot });
                proof {
                    assert(entries@.drop_last() =~= before);
                }
                self.entries = entries;
                Ok(Handle { address, space: required_space })
            },
        }
    }

    /// Replaces the record at `address` by what `change` makes of it. The
    /// space reserved for the record stays as it is. `change` must accept
    /// the record that lives at `address`.
    pub fn mutate<F: FnOnce(Record) -> Record>(&mut self, address: &Address, change: F) -> (changed:
        Result<(), StoreError>)
        requires
            old(self)@.contains_key(address@) ==> change.requires((old(self)@[address@].record,)),
        ensures
            !old(self)@.contains_key(address@) ==> changed == Err::<(), StoreError>(
                StoreError::NotFound,
            ) && final(self)@ == old(self)@,
            old(self)@.contains_key(address@) ==> {
                &&& changed == Ok::<(), StoreError>(())
                &&& final(self)@.contains_key(address@)
                &&& change.ensures((old(self)@[address@].record,), final(self)@[address@].record)
                &&& final(self)@[address@].space == old(self)@[address@].space
                &&& final(self)@ == old(self)@.insert(address@, final(self)@[address@])
            },
    {
        proof {
            use_type_invariant(&*self);
        }
        match self.position(address) {
            None => Err(StoreError::NotFound),
            Some(i) => {
                proof {
                    lemma_map_value(self.entries@, i as int);
                    lemma_map_remove(self.entries@, i as int);
                }
                let mut entries = Vec::new();
                std::mem::swap(&mut entries, &mut self.entries);
                let entry = entries.remove(i);
                self.entries = entries;
                let record = change(entry.slot.record);
                let mut entries = Vec::new();
                std::mem::swap(&mut entries, &mut self.entries);
                let ghost rest = entries@;
                let slot = Slot { record, space: entry.slot.space };
                entries.push(Entry { address: entry.address, slot });
                proof {
                    assert(entries@.drop_last() =~= rest);
                    assert(entries_map(entries@) =~= old(self)@.insert(
                        address@,
                        entries_map(entries@)[address@],
                    ));
                }
                self.entries = entries;
                Ok(())
            },
        }
    }
}

} // verus!
