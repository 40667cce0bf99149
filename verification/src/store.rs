use vstd::prelude::*;

use crate::record::SelfRefRecord;

verus! {

/// One unit of allocated record storage.
///
/// `Vacant` storage is allocated but uninitialized: no field has been
/// written, and nothing can be read from it.  `Staged` storage holds the two
/// payload fields, written explicitly; the back-reference is still absent.
/// `Ready` storage holds a fully constructed record whose `self_ref` names
/// this very slot.
#[derive(Clone, Copy, Debug)]
pub enum Slot {
    Vacant,
    Staged { small_tag: u8, value: u32 },
    Ready { rec: SelfRefRecord },
}

/// An arena that hands out fixed addresses for records.
///
/// An address is a slot index.  Slots are only ever appended, and a
/// finalized slot is never rewritten, so the address of a finalized record
/// — and of its `value` field — is stable for the rest of the store's
/// lifetime.
pub struct RecordStore {
    slots: Vec<Slot>,
}

impl RecordStore {
    /// The slots, in allocation order.
    pub closed spec fn slots(self) -> Seq<Slot> {
        self.slots@
    }

    /// How many addresses have been handed out.
    pub open spec fn len(self) -> nat {
        self.slots().len()
    }

    /// `addr` has been handed out by this store.
    pub open spec fn valid_addr(self, addr: usize) -> bool {
        addr < self.len()
    }

    /// The storage at `addr`.
    pub open spec fn slot_at(self, addr: usize) -> Slot
        recommends
            self.valid_addr(addr),
    {
        self.slots()[addr as int]
    }

    /// The storage at `addr` is allocated but entirely unwritten.
    pub open spec fn is_vacant(self, addr: usize) -> bool {
        self.valid_addr(addr) && self.slot_at(addr) is Vacant
    }

    /// The payload fields at `addr` are written; the back-reference is not.
    pub open spec fn is_staged(self, addr: usize) -> bool {
        self.valid_addr(addr) && self.slot_at(addr) is Staged
    }

    /// The storage at `addr` holds a fully constructed record.
    pub open spec fn is_ready(self, addr: usize) -> bool {
        self.valid_addr(addr) && self.slot_at(addr) is Ready
    }

    /// The `small_tag` field staged at `addr`.
    pub open spec fn staged_tag(self, addr: usize) -> u8
        recommends
            self.is_staged(addr),
    {
        self.slot_at(addr)->small_tag
    }

    /// The `value` field staged at `addr`.
    pub open spec fn staged_value(self, addr: usize) -> u32
        recommends
            self.is_staged(addr),
    {
        self.slot_at(addr)->value
    }

    /// The record finalized at `addr`.
    pub open spec fn record_at(self, addr: usize) -> SelfRefRecord
        recommends
            self.is_ready(addr),
    {
        self.slot_at(addr)->rec
    }

    /// Every finalized record's back-reference names the slot the record
    /// lives in — never another record's field, never a stale address.
    pub open spec fn wf(self) -> bool {
        forall|a: usize|
            #[trigger] self.is_ready(a) ==> self.record_at(a).points_to(a)
    }

    /// What a read of the `small_tag` field at `addr` yields: the field is
    /// defined as soon as it has been written, whether or not the
    /// back-reference has been assigned yet.
    pub open spec fn spec_read_small_tag(self, addr: usize) -> Option<u8> {
        if self.is_staged(addr) {
            Some(self.staged_tag(addr))
        } else if self.is_ready(addr) {
            Some(self.record_at(addr).small_tag)
        } else {
            None
        }
    }

    /// What a read of the `value` field at `addr` yields; see
    /// [`Self::spec_read_small_tag`].
    pub open spec fn spec_read_value(self, addr: usize) -> Option<u32> {
        if self.is_staged(addr) {
            Some(self.staged_value(addr))
        } else if self.is_ready(addr) {
            Some(self.record_at(addr).value)
        } else {
            None
        }
    }

    /// What dereferencing a back-reference that names `addr` yields: the
    /// `value` field of the record at `addr`, defined only once that record
    /// is fully constructed.
    pub open spec fn spec_read_through(self, addr: usize) -> Option<u32> {
        if self.is_ready(addr) {
            Some(self.record_at(addr).value)
        } else {
            None
        }
    }

    /// Appending a non-finalized slot neither disturbs well-formedness nor
    /// any finalized record.
    proof fn lemma_push_preserves(s1: RecordStore, s2: RecordStore, slot: Slot)
        requires
            s1.wf(),
            s2.slots() == s1.slots().push(slot),
            slot !is Ready,
        ensures
            s2.wf(),
            forall|a: usize|
                #[trigger] s1.is_ready(a) ==> s2.is_ready(a) && s2.record_at(a)
                    == s1.record_at(a),
    {
        assert forall|a: usize| #[trigger] s2.is_ready(a) implies s2.record_at(
            a,
        ).points_to(a) by {
            if (a as int) < s1.slots().len() {
                assert(s2.slot_at(a) == s1.slot_at(a));
                assert(s1.is_ready(a));
            } else {
                assert(s2.slot_at(a) == slot);
            }
        }
        assert forall|a: usize| #[trigger] s1.is_ready(a) implies s2.is_ready(a)
            && s2.record_at(a) == s1.record_at(a) by {
            assert(s2.slot_at(a) == s1.slot_at(a));
        }
    }

    /// Rewriting a slot that holds no finalized record neither disturbs
    /// well-formedness — provided a finalized slot written there names its
    /// own address — nor any finalized record.
    proof fn lemma_update_preserves(s1: RecordStore, s2: RecordStore, addr: usize, slot: Slot)
        requires
            s1.wf(),
            s1.valid_addr(addr),
            !s1.is_ready(addr),
            s2.slots() == s1.slots().update(addr as int, slot),
            slot matches Slot::Ready { rec } ==> rec.points_to(addr),
        ensures
            s2.wf(),
            forall|a: usize|
                #[trigger] s1.is_ready(a) ==> s2.is_ready(a) && s2.record_at(a)
                    == s1.record_at(a),
    {
        assert forall|a: usize| #[trigger] s2.is_ready(a) implies s2.record_at(
            a,
        ).points_to(a) by {
            if a == addr {
                assert(s2.slot_at(a) == slot);
            } else {
                assert(s2.slot_at(a) == s1.slot_at(a));
                assert(s1.is_ready(a));
            }
        }
        assert forall|a: usize| #[trigger] s1.is_ready(a) implies s2.is_ready(a)
            && s2.record_at(a) == s1.record_at(a) by {
            assert(a != addr);
            assert(s2.slot_at(a) == s1.slot_at(a));
        }
    }

    /// An empty store: no addresses handed out yet.
    pub fn new() -> (s: RecordStore)
        ensures
            s.len() == 0,
            s.wf(),
    {
        RecordStore { slots: Vec::new() }
    }

    /// Allocate storage for one record and return its address.  The storage
    /// starts vacant: nothing can be read from it until its fields are
    /// explicitly written.  Every record already finalized keeps its address
    /// and its contents.
    pub fn allocate(&mut self) -> (addr: usize)
        requires
            old(self).wf(),
        ensures
            final(self).wf(),
            addr == old(self).len(),
            final(self).slots() == old(self).slots().push(Slot::Vacant),
            final(self).is_vacant(addr),
            forall|a: usize|
                #[trigger] old(self).is_ready(a) ==> final(self).is_ready(a)
                    && final(self).record_at(a) == old(self).record_at(a),
    {
        let addr = self.slots.len();
        self.slots.push(Slot::Vacant);
        proof {
            Self::lemma_push_preserves(*old(self), *self, Slot::Vacant);
        }
        addr
    }

    /// Write the payload fields into the storage at `addr`.  Writing is
    /// refused — and the store left unchanged — when `addr` was never
    /// allocated or already holds a finalized record: a finalized record is
    /// immutable in location.  Every record already finalized keeps its
    /// address and its contents.
    pub fn stage(&mut self, addr: usize, small_tag: u8, value: u32) -> (ok: bool)
        requires
            old(self).wf(),
        ensures
            final(self).wf(),
            ok == (old(self).valid_addr(addr) && !old(self).is_ready(addr)),
            ok ==> final(self).slots() == old(self).slots().update(
                addr as int,
                (Slot::Staged { small_tag, value }),
            ),
            !ok ==> final(self).slots() == old(self).slots(),
            forall|a: usize|
                #[trigger] old(self).is_ready(a) ==> final(self).is_ready(a)
                    && final(self).record_at(a) == old(self).record_at(a),
    {
        if addr < self.slots.len() {
            match self.slots[addr] {
                Slot::Ready { .. } => false,
                _ => {
                    self.slots.set(addr, Slot::Staged { small_tag, value });
                    proof {
                        Self::lemma_update_preserves(
                            *old(self),
                            *self,
                            addr,
                            (Slot::Staged { small_tag, value }),
                        );
                    }
                    true
                },
            }
        } else {
            false
        }
    }

    /// Assign the back-reference: the address of the `value` field located
    /// in the storage at `addr` is `addr` itself, and only now, with the
    /// storage fixed and every payload field written, may it be stored.
    /// Finalizing is refused — and the store left unchanged — when the
    /// payload fields were never explicitly written: storage that was merely
    /// allocated (or zero-filled by accident) does not count as initialized.
    /// Every record already finalized keeps its address and its contents.
    pub fn finalize(&mut self, addr: usize) -> (ok: bool)
        requires
            old(self).wf(),
        ensures
            final(self).wf(),
            ok == old(self).is_staged(addr),
            ok ==> final(self).slots() == old(self).slots().update(
                addr as int,
                (Slot::Ready {
                    rec: SelfRefRecord {
                        small_tag: old(self).staged_tag(addr),
                        value: old(self).staged_value(addr),
                        self_ref: Some(addr),
                    },
                }),
            ),
            !ok ==> final(self).slots() == old(self).slots(),
            forall|a: usize|
                #[trigger] old(self).is_ready(a) ==> final(self).is_ready(a)
                    && final(self).record_at(a) == old(self).record_at(a),
    {
        if addr < self.slots.len() {
            match self.slots[addr] {
                Slot::Staged { small_tag, value } => {
                    let rec = SelfRefRecord { small_tag, value, self_ref: Some(addr) };
                    self.slots.set(addr, Slot::Ready { rec });
                    proof {
                        Self::lemma_update_preserves(*old(self), *self, addr, Slot::Ready { rec });
                    }
                    true
                },
                _ => false,
            }
        } else {
            false
        }
    }

    /// Allocate, write and finalize in one call.  The address is known by
    /// the time the back-reference is assigned, so the unsafe window of raw
    /// construction disappears entirely.
    pub fn allocate_finalized(&mut self, small_tag: u8, value: u32) -> (addr: usize)
        requires
            old(self).wf(),
        ensures
            final(self).wf(),
            addr == old(self).len(),
            final(self).slots() == old(self).slots().push(
                (Slot::Ready {
                    rec: SelfRefRecord { small_tag, value, self_ref: Some(addr) },
                }),
            ),
            final(self).is_ready(addr),
            final(self).record_at(addr) == (SelfRefRecord {
                small_tag,
                value,
                self_ref: Some(addr),
            }),
            forall|a: usize|
                #[trigger] old(self).is_ready(a) ==> final(self).is_ready(a)
                    && final(self).record_at(a) == old(self).record_at(a),
    {
        let addr = self.allocate();
        self.stage(addr, small_tag, value);
        self.finalize(addr);
        proof {
            assert(self.slots() =~= old(self).slots().push(
                (Slot::Ready {
                    rec: SelfRefRecord { small_tag, value, self_ref: Some(addr) },
                }),
            ));
        }
        addr
    }

    /// Read the `small_tag` field at `addr`.  The field is readable as soon
    /// as it has been explicitly written, before the back-reference is
    /// assigned; unwritten storage yields nothing.
    pub fn read_small_tag(&self, addr: usize) -> (r: Option<u8>)
        ensures
            r == self.spec_read_small_tag(addr),
    {
        if addr < self.slots.len() {
            match self.slots[addr] {
                Slot::Staged { small_tag, .. } => Some(small_tag),
                Slot::Ready { rec } => Some(rec.small_tag),
                Slot::Vacant => None,
            }
        } else {
            None
        }
    }

    /// Read the `value` field at `addr`; see [`Self::read_small_tag`].
    pub fn read_value(&self, addr: usize) -> (r: Option<u32>)
        ensures
            r == self.spec_read_value(addr),
    {
        if addr < self.slots.len() {
            match self.slots[addr] {
                Slot::Staged { value, .. } => Some(value),
                Slot::Ready { rec } => Some(rec.value),
                Slot::Vacant => None,
            }
        } else {
            None
        }
    }

    /// Dereference a back-reference: read the `value` field the address
    /// names.  Only a fully constructed record can be read through; a
    /// partially constructed or vacant slot yields nothing.
    pub fn read_through(&self, addr: usize) -> (r: Option<u32>)
        ensures
            r == self.spec_read_through(addr),
    {
        if addr < self.slots.len() {
            match self.slots[addr] {
                Slot::Ready { rec } => Some(rec.value),
                _ => None,
            }
        } else {
            None
        }
    }

    /// The fully constructed record at `addr`, if there is one.  A record
    /// whose back-reference has not been assigned is never handed out.
    pub fn get_record(&self, addr: usize) -> (r: Option<SelfRefRecord>)
        ensures
            self.is_ready(addr) ==> r == Some(self.record_at(addr)),
            !self.is_ready(addr) ==> r is None,
    {
        if addr < self.slots.len() {
            match self.slots[addr] {
                Slot::Ready { rec } => Some(rec),
                _ => None,
            }
        } else {
            None
        }
    }
}

/// Law: reading through a finalized record's back-reference yields the same
/// value as reading the record's own `value` field directly, and the address
/// the back-reference names is the address of that field.
pub proof fn lemma_self_ref_reads_value(s: RecordStore, addr: usize)
    requires
        s.wf(),
        s.is_ready(addr),
    ensures
        s.record_at(addr).self_ref == Some(addr),
        s.spec_read_through(s.record_at(addr).self_ref.unwrap()) == Some(
            s.record_at(addr).value,
        ),
{
}

/// Law: the payload fields written in the staging step are valid on their
/// own — reading `small_tag` or `value` before the back-reference is
/// assigned yields exactly what was written.
pub proof fn lemma_fields_readable_before_finalize(s: RecordStore, addr: usize)
    requires
        s.is_staged(addr),
    ensures
        s.spec_read_small_tag(addr) == Some(s.staged_tag(addr)),
        s.spec_read_value(addr) == Some(s.staged_value(addr)),
{
}

} // verus!
