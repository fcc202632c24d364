use vstd::prelude::*;
use crate::clock::now_millis;

verus! {

/// Measures how long an operation has been running, from [`Elapsed::start`]
/// to [`Elapsed::finish`].
pub struct Elapsed {
    op: &'static str,
    started_at: u64,
}

impl Elapsed {
    /// The operation being measured.
    pub closed spec fn spec_op(&self) -> Seq<char> {
        self.op@
    }

    /// Begin measuring the named operation at the current instant.
    pub fn start(op: &'static str) -> (r: Self)
        ensures
            r.spec_op() == op@,
    {
        Elapsed { op, started_at: now_millis() }
    }

    /// The operation's name.
    pub fn operation(&self) -> (r: &'static str)
        ensures
            r@ == self.spec_op(),
    {
        self.op
    }

    /// Milliseconds spent since [`Elapsed::start`]; zero when the wall
    /// clock moved backwards in between.
    pub fn finish(&self) -> u64 {
        let now = now_millis();
        if now >= self.started_at {
            now - self.started_at
        } else {
            0
        }
    }
}

} // verus!
