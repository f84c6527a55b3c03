//! Data layout strings.

use crate::native::Call;
use vstd::prelude::*;

verus! {

/// A data layout string in LLVM's memory.
///
/// It is either this value's own, to be freed once, or a view into a unit,
/// which the unit frees with itself and replaces whenever its layout is set.
#[derive(Debug, PartialEq, Eq)]
pub struct DataLayout {
    /// Where the string lies.
    pub ptr: usize,
    /// The unit that the string belongs to; nothing when it is this value's
    /// own.
    pub parent: Option<usize>,
}

impl DataLayout {
    /// Takes charge of the string at `ptr`.
    pub fn new_owned(ptr: usize) -> (layout: DataLayout)
        ensures
            layout == (DataLayout { ptr, parent: None }),
    {
        DataLayout { ptr, parent: None }
    }

    /// A view of the string at `ptr`, which belongs to the unit `parent`.
    pub fn new_borrowed(ptr: usize, parent: usize) -> (layout: DataLayout)
        ensures
            layout == (DataLayout { ptr, parent: Some(parent) }),
    {
        DataLayout { ptr, parent: Some(parent) }
    }

    /// Where the string lies.
    pub fn as_ptr(&self) -> (ptr: usize)
        ensures
            ptr == self.ptr,
    {
        self.ptr
    }

    /// Whether the string belongs to a unit.
    pub open spec fn spec_is_borrowed(&self) -> bool {
        self.parent is Some
    }

    /// Whether the string belongs to a unit.
    #[verifier::when_used_as_spec(spec_is_borrowed)]
    pub fn is_borrowed(&self) -> (borrowed: bool)
        ensures
            borrowed == self.spec_is_borrowed(),
    {
        self.parent.is_some()
    }

    /// The call that is due when this value goes away.
    pub open spec fn disposal(self) -> Option<Call<'static>> {
        match self.parent {
            Some(_) => None,
            None => Some(Call::DisposeMessage { message: self.ptr }),
        }
    }

    /// Gives the value up. A string of its own is freed by the call
    /// returned; a view into a unit is never freed by itself.
    pub fn release(self) -> (call: Option<Call<'static>>)
        ensures
            call == self.disposal(),
    {
        match self.parent {
            Some(_) => None,
            None => Some(Call::DisposeMessage { message: self.ptr }),
        }
    }
}

} // verus!
