use vstd::prelude::*;
use crate::error::ComputeError;

verus! {

/// The declared type of one positional kernel argument.
#[derive(Clone, Copy, Debug, PartialEq, Eq, Structural)]
pub enum ArgKind {
    /// A reference to a device buffer.
    Buffer,
    /// A four-byte scalar passed by value.
    Scalar,
}

/// A value bound to an argument slot.
#[derive(Clone, Copy, Debug, PartialEq, Eq, Structural)]
pub enum ArgValue {
    /// The buffer with this identifier.
    Buffer(u64),
    /// The four bytes of a scalar, as a little-endian word.
    Scalar(u32),
}

pub open spec fn kind_of(v: ArgValue) -> ArgKind {
    match v {
        ArgValue::Buffer(_) => ArgKind::Buffer,
        ArgValue::Scalar(_) => ArgKind::Scalar,
    }
}

/// The invocation record of a kernel: one slot per declared argument, each
/// empty until a value is bound to it.
pub struct KernelArgs {
    kinds: Vec<ArgKind>,
    slots: Vec<Option<ArgValue>>,
}

/// The argument types of `multiply_by_scalar`: source buffer, coefficient,
/// destination buffer.
pub open spec fn scalar_multiply_kinds() -> Seq<ArgKind> {
    seq![ArgKind::Buffer, ArgKind::Scalar, ArgKind::Buffer]
}

/// Returns the argument types of `multiply_by_scalar`.
pub fn scalar_multiply_signature() -> (r: Vec<ArgKind>)
    ensures
        r@ == scalar_multiply_kinds(),
{
    let r = vec![ArgKind::Buffer, ArgKind::Scalar, ArgKind::Buffer];
    assert(r@ =~= scalar_multiply_kinds());
    r
}

impl KernelArgs {
    /// The declared type of each slot.
    pub closed spec fn kinds(&self) -> Seq<ArgKind> {
        self.kinds@
    }

    /// What each slot holds.
    pub closed spec fn slots(&self) -> Seq<Option<ArgValue>> {
        self.slots@
    }

    pub open spec fn wf(&self) -> bool {
        self.kinds().len() == self.slots().len()
    }

    pub open spec fn all_bound(&self) -> bool {
        forall|i: int| 0 <= i < self.slots().len() ==> (#[trigger] self.slots()[i]) is Some
    }

    /// A record with the given slot types, all of them unbound.
    pub fn new(kinds: Vec<ArgKind>) -> (r: KernelArgs)
        ensures
            r.wf(),
            r.kinds() == kinds@,
            forall|i: int| 0 <= i < r.slots().len() ==> (#[trigger] r.slots()[i]) is None,
    {
        let mut slots: Vec<Option<ArgValue>> = Vec::new();
        let mut i: usize = 0;
        while i < kinds.len()
            invariant
                i <= kinds@.len(),
                slots@.len() == i,
                forall|j: int| 0 <= j < i ==> (#[trigger] slots@[j]) is None,
            decreases kinds@.len() - i,
        {
            slots.push(None);
            i = i + 1;
        }
        KernelArgs { kinds, slots }
    }

    /// Number of slots.
    pub fn len(&self) -> (r: usize)
        ensures
            r == self.slots().len(),
    {
        self.slots.len()
    }

    /// Binds `value` to slot `index`; the last value bound to a slot wins.
    /// Fails with `ArgumentMismatch`, changing nothing, where the slot does
    /// not exist or has another type.
    pub fn bind(&mut self, index: usize, value: ArgValue) -> (r: Result<(), ComputeError>)
        requires
            old(self).wf(),
        ensures
            final(self).wf(),
            final(self).kinds() == old(self).kinds(),
            r is Err <==> (index >= old(self).kinds().len()
                || old(self).kinds()[index as int] != kind_of(value)),
            r is Err ==> r == Err::<(), ComputeError>(ComputeError::ArgumentMismatch),
            r is Err ==> final(self).slots() == old(self).slots(),
            r is Ok ==> final(self).slots() == old(self).slots().update(index as int, Some(value)),
    {
        if index >= self.kinds.len() {
            return Err(ComputeError::ArgumentMismatch);
        }
        let kind = match value {
            ArgValue::Buffer(_) => ArgKind::Buffer,
            ArgValue::Scalar(_) => ArgKind::Scalar,
        };
        if self.kinds[index] != kind {
            return Err(ComputeError::ArgumentMismatch);
        }
        self.slots.set(index, Some(value));
        Ok(())
    }

    /// Checks that every slot is bound, as a launch needs.
    pub fn check_bound(&self) -> (r: Result<(), ComputeError>)
        ensures
            r is Ok <==> self.all_bound(),
            r is Err ==> r == Err::<(), ComputeError>(ComputeError::UnboundArgument),
    {
        let mut i: usize = 0;
        while i < self.slots.len()
            invariant
                i <= self.slots@.len(),
                forall|j: int| 0 <= j < i ==> (#[trigger] self.slots@[j]) is Some,
            decreases self.slots@.len() - i,
        {
            if self.slots[i].is_none() {
                return Err(ComputeError::UnboundArgument);
            }
            i = i + 1;
        }
        Ok(())
    }
}

} // verus!
