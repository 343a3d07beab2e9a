use vstd::prelude::*;

verus! {

/// The queue that decouples a tool-button click from the launch itself:
/// a click enqueues the tool's index, and the frame loop drains at most
/// one index per frame and performs the launch.
pub struct LaunchQueue {
    items: Vec<usize>,
}

impl View for LaunchQueue {
    type V = Seq<usize>;

    closed spec fn view(&self) -> Seq<usize> {
        self.items@
    }
}

impl LaunchQueue {
    /// An empty queue.
    pub fn new() -> (q: LaunchQueue)
        ensures
            q@ == Seq::<usize>::empty(),
    {
        LaunchQueue { items: Vec::new() }
    }

    /// Records a click on the tool at `index`.
    pub fn enqueue(&mut self, index: usize)
        ensures
            final(self)@ == old(self)@.push(index),
    {
        self.items.push(index);
    }

    /// Takes the oldest queued index, if any: requests leave the queue
    /// in the order the clicks arrived.
    pub fn take_next(&mut self) -> (r: Option<usize>)
        ensures
            old(self)@.len() == 0 ==> r is None && final(self)@ == old(self)@,
            old(self)@.len() > 0 ==> r == Some(old(self)@[0]) && final(self)@ == old(
                self,
            )@.drop_first(),
    {
        if self.items.len() == 0 {
            None
        } else {
            let x: usize = self.items.remove(0);
            proof {
                assert(old(self)@.remove(0) =~= old(self)@.drop_first());
            }
            Some(x)
        }
    }
}

} // verus!
