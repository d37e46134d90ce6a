//! Argument vectors for host function invocation.
//!
//! A call into a host function carries its arguments in a small-vector that
//! stores a handful of handles inline. The vector type comes from an
//! outside crate; what it holds is named by `args_model`, and the few
//! operations the library needs are trusted wrappers over it.

use vstd::prelude::*;

use crate::scope::Handle;

verus! {

/// The argument vector of one host function invocation: a small-vector
/// that stores up to eight handles inline.
#[verifier::external_body]
pub struct ArgsVec {
    inner: smallvec::SmallVec<[Handle; 8]>,
}

/// The handles an argument vector holds, in order.
pub uninterp spec fn args_model(a: ArgsVec) -> Seq<Handle>;

/// Relies on SmallVec::new: a fresh vector holds nothing.
#[verifier::external_body]
pub fn args_new() -> (r: ArgsVec)
    ensures
        args_model(r) == Seq::<Handle>::empty(),
{
    ArgsVec { inner: smallvec::SmallVec::new() }
}

/// Relies on SmallVec::push: appends the element at the back.
#[verifier::external_body]
pub fn args_push(a: &mut ArgsVec, h: Handle)
    ensures
        args_model(*final(a)) == args_model(*old(a)).push(h),
{
    a.inner.push(h)
}

/// Relies on SmallVec's indexing: the element at the given position.
#[verifier::external_body]
pub fn args_get<'a>(a: &'a ArgsVec, i: usize) -> (r: &'a Handle)
    requires
        i < args_model(*a).len(),
    ensures
        *r == args_model(*a)[i as int],
{
    &a.inner[i]
}

/// What can serve as the arguments of a host function invocation.
pub trait ArgumentsInternal: Sized {
    /// The handles this argument pack stands for.
    spec fn args_view(self) -> Seq<Handle>;

    fn into_args_vec(self) -> (r: ArgsVec)
        ensures
            args_model(r) == self.args_view(),
    ;
}

impl ArgumentsInternal for Handle {
    open spec fn args_view(self) -> Seq<Handle> {
        seq![self]
    }

    fn into_args_vec(self) -> (r: ArgsVec) {
        let ghost this = self;
        let mut a = args_new();
        args_push(&mut a, self);
        proof {
            assert(args_model(a) =~= seq![this]);
        }
        a
    }
}

} // verus!
