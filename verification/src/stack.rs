use crate::frame::{Frame, FrameView};
use vstd::prelude::*;

verus! {

/// The call stack of one thread: the running activation is the last one.
#[derive(Debug)]
pub struct Stack {
    pub frames: Vec<Frame>,
}

impl View for Stack {
    type V = Seq<FrameView>;

    open spec fn view(&self) -> Seq<FrameView> {
        self.frames@.map_values(|f: Frame| f@)
    }
}

impl Stack {
    /// A call stack without activations.
    pub fn new() -> (r: Self)
        ensures
            r@ == Seq::<FrameView>::empty(),
    {
        let r = Stack { frames: Vec::<Frame>::new() };
        assert(r@ =~= Seq::<FrameView>::empty());
        r
    }

    /// The number of activations.
    pub fn depth(&self) -> (r: usize)
        ensures
            r == self@.len(),
    {
        self.frames.len()
    }

    /// Puts an activation on top.
    pub fn push(&mut self, frame: Frame)
        ensures
            final(self)@ == old(self)@.push(frame@),
    {
        self.frames.push(frame);
        assert(self@ =~= old(self)@.push(frame@));
    }

    /// Takes the running activation off.
    pub fn pop(&mut self) -> (r: Option<Frame>)
        ensures
            match r {
                Some(frame) => old(self)@.len() > 0 && frame@ == old(self)@.last() && final(self)@
                    == old(self)@.drop_last(),
                None => old(self)@.len() == 0 && final(self)@ == old(self)@,
            },
    {
        let r = self.frames.pop();
        assert(r is Some ==> self@ =~= old(self)@.drop_last());
        assert(r is None ==> self@ =~= old(self)@);
        r
    }
}

} // verus!
