//! The frames waiting to be sent to one client, oldest first.
use vstd::prelude::*;
use std::collections::VecDeque;
use crate::protocol::bap_frame::BapFrame;

verus! {

#[derive(Debug)]
pub struct OutboundQueue {
    frames: VecDeque<BapFrame>,
}

impl View for OutboundQueue {
    type V = Seq<BapFrame>;

    closed spec fn view(&self) -> Seq<BapFrame> {
        self.frames@
    }
}

impl OutboundQueue {
    pub fn new() -> (q: Self)
        ensures
            q@ == Seq::<BapFrame>::empty(),
    {
        OutboundQueue { frames: VecDeque::new() }
    }

    /// Queues `frame` behind the others.
    pub fn push(&mut self, frame: BapFrame)
        ensures
            final(self)@ == old(self)@.push(frame),
    {
        self.frames.push_back(frame);
    }

    /// Takes the oldest frame, if any.
    pub fn try_drain_next(&mut self) -> (r: Option<BapFrame>)
        ensures
            old(self)@.len() == 0 ==> r is None && final(self)@ == old(self)@,
            old(self)@.len() > 0 ==> r == Some(old(self)@[0]) && final(self)@ == old(self)@.drop_first(),
    {
        self.frames.pop_front()
    }

    pub fn is_empty(&self) -> (b: bool)
        ensures
            b == (self@.len() == 0),
    {
        self.frames.len() == 0
    }

    pub fn len(&self) -> (n: usize)
        ensures
            n == self@.len(),
    {
        self.frames.len()
    }
}

impl Default for OutboundQueue {
    fn default() -> (q: Self)
        ensures
            q@ == Seq::<BapFrame>::empty(),
    {
        OutboundQueue::new()
    }
}

/// Frames leave the queue in the order they entered it: pushing `f` onto a
/// queue holding `s` and then draining everything yields `s` followed by `f`.
pub proof fn lemma_queue_fifo(s: Seq<BapFrame>, f: BapFrame)
    ensures
        s.push(f).len() > 0,
        s.len() > 0 ==> s.push(f)[0] == s[0] && s.push(f).drop_first() == s.drop_first().push(f),
        s.len() == 0 ==> s.push(f)[0] == f && s.push(f).drop_first().len() == 0,
{
    if s.len() > 0 {
        assert(s.push(f).drop_first() =~= s.drop_first().push(f));
    }
}

} // verus!
