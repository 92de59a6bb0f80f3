use vstd::prelude::*;

verus! {

/// A minimal stateful streaming transform: one `next` call per incoming bar,
/// in strict arrival order, with no look-ahead. A method is built once from
/// validated parameters and never fails at a per-step call; all failure
/// handling belongs to construction time.
pub trait Method: Sized {
    /// One scalar (or bar) consumed per step.
    type Input;

    /// One value produced per step.
    type Output;

    /// Well-formedness of the method state: established at construction and
    /// preserved by every step.
    spec fn m_wf(&self) -> bool;

    /// Consumes the next input and produces the next output, using only the
    /// current input and the method's own prior state.
    fn next(&mut self, value: Self::Input) -> (r: Self::Output)
        requires
            old(self).m_wf(),
        ensures
            final (self).m_wf(),
    ;
}

} // verus!
