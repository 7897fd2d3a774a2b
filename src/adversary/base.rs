use vstd::prelude::*;

use crate::loss_function::Loss;

verus! {

/// An adversary (an environment) that reveals a whole loss function each round.
pub trait FullInformationAdversary: Sized {
    /// The loss functions that this adversary reveals.
    type LossFunction;

    /// Whether an adversary in state `pre` may reveal `loss` and move to state `post`.
    ///
    /// An implementation that states nothing more keeps this predicate true.
    open spec fn reveals(pre: Self, post: Self, loss: Self::LossFunction) -> bool {
        true
    }

    /// Returns the loss function of the current round.
    ///
    /// An adversary that reacts to the learner updates `self` before returning.
    fn reveal_loss(&mut self) -> (loss: Self::LossFunction)
        ensures
            Self::reveals(*old(self), *final(self), loss),
    ;
}

/// The bandit view of a full-information adversary: the learner sees only the
/// value of the revealed loss at the point it chose, never the loss itself.
///
/// Every full-information adversary has it, through the impl below.
pub trait BanditAdversary<L, T>: FullInformationAdversary<LossFunction = L> where L: Loss<T> {
    /// Reveals the loss of the current round, exactly once, and returns its
    /// value at `arg`. Every loss that the adversary may reveal must accept `arg`.
    fn eval(&mut self, arg: T) -> (value: L::Value)
        requires
            forall|post: Self, loss: L|
                #[trigger] Self::reveals(*old(self), post, loss) ==> loss.accepts(arg),
        ensures
            exists|loss: L|
                #![trigger Self::reveals(*old(self), *final(self), loss)]
                Self::reveals(*old(self), *final(self), loss) && loss.evaluates_to(arg, value),
    {
        let loss: L = self.reveal_loss();
        loss.eval(arg)
    }
}

impl<A, L, T> BanditAdversary<L, T> for A where A: FullInformationAdversary<LossFunction = L>, L: Loss<T> {

}

/// The bandit path and the full-information path agree: where the adversary's
/// round and the loss's value are determined by the state and the point, the
/// outcome of `eval` (some loss revealed from `pre`, evaluated at `arg`) and the
/// outcome of `reveal_loss` followed by `Loss::eval` at `arg`, from the same
/// state `pre`, leave the adversary in the same state and yield the same value.
pub proof fn lemma_bandit_is_reveal_then_eval<A, L, T>(
    pre: A,
    arg: T,
    post_bandit: A,
    value_bandit: L::Value,
    post_full: A,
    loss_full: L,
    value_full: L::Value,
) where A: FullInformationAdversary<LossFunction = L>, L: Loss<T>
    requires
        forall|p1: A, p2: A, l1: L, l2: L|
            #![trigger A::reveals(pre, p1, l1), A::reveals(pre, p2, l2)]
            A::reveals(pre, p1, l1) && A::reveals(pre, p2, l2) ==> p1 == p2 && l1 == l2,
        forall|l: L, v1: L::Value, v2: L::Value|
            #![trigger l.evaluates_to(arg, v1), l.evaluates_to(arg, v2)]
            l.evaluates_to(arg, v1) && l.evaluates_to(arg, v2) ==> v1 == v2,
        exists|loss: L|
            #![trigger A::reveals(pre, post_bandit, loss)]
            A::reveals(pre, post_bandit, loss) && loss.evaluates_to(arg, value_bandit),
        A::reveals(pre, post_full, loss_full),
        loss_full.evaluates_to(arg, value_full),
    ensures
        post_bandit == post_full,
        value_bandit == value_full,
{
    let loss = choose|loss: L| A::reveals(pre, post_bandit, loss) && loss.evaluates_to(arg, value_bandit);
    assert(A::reveals(pre, post_bandit, loss) && A::reveals(pre, post_full, loss_full));
    assert(loss.evaluates_to(arg, value_bandit) && loss.evaluates_to(arg, value_full));
}

} // verus!
