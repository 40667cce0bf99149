use vstd::prelude::*;

verus! {

/// A record one of whose fields, once assigned, refers back to the record's
/// own `value` field.
///
/// The back-reference is a non-owning address: the index of the slot of a
/// [`crate::store::RecordStore`] in which the record lives, which is also
/// where its `value` field lives.  While `self_ref` is `None` the record is
/// only partially constructed: `small_tag` and `value` are valid on their
/// own, but no consumer may read through the back-reference yet.
#[derive(Clone, Copy, Debug, PartialEq, Eq)]
pub struct SelfRefRecord {
    pub small_tag: u8,
    pub value: u32,
    pub self_ref: Option<usize>,
}

impl SelfRefRecord {
    /// The back-reference has not been assigned yet.
    pub open spec fn is_partial(self) -> bool {
        self.self_ref is None
    }

    /// The back-reference is assigned and names the address `addr`.
    pub open spec fn points_to(self, addr: usize) -> bool {
        self.self_ref == Some(addr)
    }
}

/// Phase one of two-phase construction: the payload fields are written and
/// the back-reference is explicitly absent.  Nothing here depends on where
/// the record will eventually live.
pub fn new_partial(small_tag: u8, value: u32) -> (r: SelfRefRecord)
    ensures
        r.small_tag == small_tag,
        r.value == value,
        r.is_partial(),
{
    SelfRefRecord { small_tag, value, self_ref: None }
}

/// A heap-allocated record in the partially constructed state: every field
/// is explicitly initialized, with the back-reference explicitly absent
/// rather than left to an accident of representation.
pub fn test_box_astruct() -> (r: Box<SelfRefRecord>)
    ensures
        r.small_tag == 1,
        r.value == 123,
        r.is_partial(),
{
    Box::new(new_partial(1, 123))
}

} // verus!
