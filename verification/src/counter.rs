//! A counter that goes up and down by one and records each step.

use vstd::prelude::*;

verus! {

/// A recorded step of the counter, with the value that it led to.
#[derive(Clone, Copy, Debug, PartialEq, Eq, Structural)]
pub enum CounterEvent {
    Increment { count: i32 },
    Decrement { count: i32 },
}

impl CounterEvent {
    /// The topic under which the event is published, as characters.
    pub open spec fn topic_name(self) -> Seq<char> {
        match self {
            CounterEvent::Increment { .. } => "increment"@,
            CounterEvent::Decrement { .. } => "decrement"@,
        }
    }

    /// The topic under which the event is published.
    pub fn topic(&self) -> (name: &'static str)
        ensures
            name@ == self.topic_name(),
    {
        match self {
            CounterEvent::Increment { .. } => "increment",
            CounterEvent::Decrement { .. } => "decrement",
        }
    }

    /// The value of the counter after the step.
    pub fn count(&self) -> (count: i32)
        ensures
            count == match *self {
                CounterEvent::Increment { count } => count,
                CounterEvent::Decrement { count } => count,
            },
    {
        match self {
            CounterEvent::Increment { count } => *count,
            CounterEvent::Decrement { count } => *count,
        }
    }
}

/// The counter's state as mathematics.
pub struct CounterState {
    /// The current value.
    pub count: i32,
    /// The events recorded so far, oldest first.
    pub events: Seq<CounterEvent>,
}

impl CounterState {
    /// The state after a step up.
    pub open spec fn after_increment(self) -> CounterState {
        CounterState {
            count: (self.count + 1) as i32,
            events: self.events.push(CounterEvent::Increment { count: (self.count + 1) as i32 }),
        }
    }

    /// The state after a step down.
    pub open spec fn after_decrement(self) -> CounterState {
        CounterState {
            count: (self.count - 1) as i32,
            events: self.events.push(CounterEvent::Decrement { count: (self.count - 1) as i32 }),
        }
    }
}

/// The counter and its event log.
pub struct Counter {
    pub count: i32,
    pub events: Vec<CounterEvent>,
}

impl View for Counter {
    type V = CounterState;

    open spec fn view(&self) -> CounterState {
        CounterState { count: self.count, events: self.events@ }
    }
}

impl Counter {
    /// A counter at 0 with nothing recorded.
    pub fn new() -> (counter: Counter)
        ensures
            counter@ == (CounterState { count: 0, events: Seq::empty() }),
    {
        Counter { count: 0, events: Vec::new() }
    }

    /// Sets the counter to 0. The recorded events stay.
    pub fn init(&mut self)
        ensures
            final(self)@ == (CounterState { count: 0, ..old(self)@ }),
    {
        self.count = 0;
    }

    /// Moves the counter up by one, records the step and returns the new value.
    pub fn increment(&mut self) -> (count: i32)
        requires
            old(self)@.count < i32::MAX,
        ensures
            count == old(self)@.count + 1,
            final(self)@ == old(self)@.after_increment(),
    {
        self.count = self.count + 1;
        self.events.push(CounterEvent::Increment { count: self.count });
        self.count
    }

    /// Moves the counter down by one, records the step and returns the new
    /// value.
    pub fn decrement(&mut self) -> (count: i32)
        requires
            old(self)@.count > i32::MIN,
        ensures
            count == old(self)@.count - 1,
            final(self)@ == old(self)@.after_decrement(),
    {
        self.count = self.count - 1;
        self.events.push(CounterEvent::Decrement { count: self.count });
        self.count
    }

    /// The current value.
    pub fn get_count(&self) -> (count: i32)
        ensures
            count == self@.count,
    {
        self.count
    }

    /// The events recorded so far, oldest first.
    pub fn events(&self) -> (events: &Vec<CounterEvent>)
        ensures
            events@ == self@.events,
    {
        &self.events
    }
}

/// A step up followed by a step down, or the other way round, leaves the value
/// where it was.
pub proof fn lemma_steps_cancel(state: CounterState)
    ensures
        state.count < i32::MAX ==> state.after_increment().after_decrement().count == state.count,
        state.count > i32::MIN ==> state.after_decrement().after_increment().count == state.count,
{
}

} // verus!
