use vstd::prelude::*;

verus! {

/// A loss function: something that can be evaluated at a point of type `T`.
pub trait Loss<T> {
    /// What an evaluation yields.
    type Value;

    /// Whether this loss may be evaluated at `arg` (a point of the right
    /// length, say). Evaluating elsewhere is a contract violation.
    ///
    /// An implementation that states nothing more keeps this predicate true.
    open spec fn accepts(&self, arg: T) -> bool {
        true
    }

    /// Whether `value` is what this loss yields at `arg`.
    ///
    /// An implementation that states nothing more keeps this predicate true.
    open spec fn evaluates_to(&self, arg: T, value: Self::Value) -> bool {
        true
    }

    /// Evaluate the loss at the given point `arg`.
    fn eval(&self, arg: T) -> (value: Self::Value)
        requires
            self.accepts(arg),
        ensures
            self.evaluates_to(arg, value),
    ;
}

} // verus!
