/// What every adversary offers, and the bandit view that it gives for free.
pub mod base;
