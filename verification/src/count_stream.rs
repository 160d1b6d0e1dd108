//! A component that writes the numbers below a count to a stream, one at a time.

use vstd::prelude::*;

verus! {

/// The component.
pub struct Component;

/// The task that writes to a stream which the component handed out.
pub struct CountStream {
    next: u32,
    count: u32,
}

/// What the task is about to write, and where it stops.
pub struct CountModel {
    pub next: u32,
    pub count: u32,
}

/// What the task does next.
pub enum CountAction {
    /// It writes these items, and goes on when it knows which of them were not taken.
    Write(Vec<u32>),
    /// It ends: everything was written.
    Finish,
    /// It fails: an item was not taken.
    Fail,
}

impl View for CountStream {
    type V = CountModel;

    closed spec fn view(&self) -> CountModel {
        CountModel { next: self.next, count: self.count }
    }
}

impl CountModel {
    pub open spec fn wf(self) -> bool {
        self.next <= self.count
    }

    /// The items that the task writes when all it wrote was taken.
    pub open spec fn items(self) -> Seq<u32> {
        if self.next < self.count {
            seq![self.next]
        } else {
            Seq::empty()
        }
    }

    /// The task after that.
    pub open spec fn advanced(self) -> CountModel {
        if self.next < self.count {
            CountModel { next: (self.next + 1) as u32, ..self }
        } else {
            self
        }
    }

    /// What the task writes in `steps` steps when all it writes is taken.
    pub open spec fn written(self, steps: nat) -> Seq<u32>
        decreases steps,
    {
        if steps == 0 {
            Seq::empty()
        } else {
            self.items() + self.advanced().written((steps - 1) as nat)
        }
    }
}

impl Component {
    /// Starts the task that writes the numbers below `count`.
    pub fn get(count: u32) -> (r: CountStream)
        ensures
            r@ == (CountModel { next: 0, count }),
            r@.wf(),
    {
        CountStream { next: 0, count }
    }
}

impl CountStream {
    /// Goes on, where `remaining` are the items of the last write that were not taken. Before
    /// the first write there are none.
    pub fn step(&mut self, remaining: &Vec<u32>) -> (r: CountAction)
        requires
            old(self)@.wf(),
        ensures
            final(self)@.wf(),
            remaining@.len() > 0 ==> r == CountAction::Fail && final(self)@ == old(self)@,
            remaining@.len() == 0 ==> final(self)@ == old(self)@.advanced(),
            remaining@.len() == 0 && old(self)@.next < old(self)@.count ==> {
                &&& r matches CountAction::Write(items)
                &&& items@ == old(self)@.items()
            },
            remaining@.len() == 0 && old(self)@.next == old(self)@.count ==> r
                == CountAction::Finish,
    {
        if remaining.len() > 0 {
            CountAction::Fail
        } else if self.next < self.count {
            let items: Vec<u32> = vec![self.next];
            self.next = self.next + 1;
            assert(items@ =~= old(self)@.items());
            CountAction::Write(items)
        } else {
            CountAction::Finish
        }
    }
}

/// The task writes the numbers from where it is to the count, each once and in order: after
/// `steps` steps it has written as many of them as there were steps, and all of them in the end.
pub proof fn law_counts(start: CountModel, steps: nat)
    requires
        start.wf(),
    ensures
        start.written(steps) == Seq::new(
            if steps < start.count - start.next {
                steps
            } else {
                (start.count - start.next) as nat
            },
            |i: int| (start.next + i) as u32,
        ),
    decreases steps,
{
    if steps > 0 {
        law_counts(start.advanced(), (steps - 1) as nat);
    }
    assert(start.written(steps) =~= Seq::new(
        if steps < start.count - start.next {
            steps
        } else {
            (start.count - start.next) as nat
        },
        |i: int| (start.next + i) as u32,
    ));
}

} // verus!
