use vstd::prelude::*;

verus! {

/// Storage for a dynamically-sized container, reserved before the container
/// itself is constructed.
///
/// Reserving storage and constructing the container are distinct steps, and
/// only the second produces anything readable: there is no way to obtain a
/// handle to the contents — or even a length — while the storage is
/// unconstructed, so a handle over arbitrary bytes is unreachable by
/// construction.
pub struct ContainerCell {
    contents: Option<Vec<u32>>,
}

impl ContainerCell {
    /// The container's real constructor has run.
    pub closed spec fn is_constructed(self) -> bool {
        self.contents is Some
    }

    /// The constructed contents.
    pub closed spec fn contents(self) -> Seq<u32>
        recommends
            self.is_constructed(),
    {
        self.contents.unwrap()@
    }

    /// Reserve storage without constructing the container.
    pub fn reserve() -> (c: ContainerCell)
        ensures
            !c.is_constructed(),
    {
        ContainerCell { contents: None }
    }

    /// Run the container's real constructor over the reserved storage.
    pub fn initialize(&mut self, elems: Vec<u32>)
        ensures
            final(self).is_constructed(),
            final(self).contents() == elems@,
    {
        self.contents = Some(elems);
    }

    /// The only way to a usable handle.  It exists exactly when the real
    /// constructor has run, and then it is the constructed contents; before
    /// that, the request is refused deterministically rather than answered
    /// with a handle over arbitrary bytes.
    pub fn try_handle(&self) -> (r: Option<&Vec<u32>>)
        ensures
            r is Some <==> self.is_constructed(),
            r matches Some(v) ==> v@ == self.contents(),
    {
        match &self.contents {
            Some(v) => Some(v),
            None => None,
        }
    }

    /// The contents' length.  Unconstructed storage has no length at all —
    /// never an arbitrary one.
    pub fn checked_len(&self) -> (r: Option<usize>)
        ensures
            self.is_constructed() ==> r == Some(self.contents().len() as usize),
            !self.is_constructed() ==> r is None,
    {
        match &self.contents {
            Some(v) => Some(v.len()),
            None => None,
        }
    }
}

} // verus!
