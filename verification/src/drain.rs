//! Graceful shutdown: one signal that is fired once, watches that see it,
//! and listeners that finish what is in flight before they stop.

use vstd::prelude::*;

verus! {

/// The owner's end of the drain channel. There is one per process.
#[derive(Debug)]
pub struct Signal {
    fired: bool,
}

/// What a task sees of the drain channel at the moment it looks.
#[derive(Clone, Copy, Debug, PartialEq, Eq)]
pub struct Watch {
    signaled: bool,
}

/// A drain channel on which nothing was fired yet.
pub fn channel() -> (r: (Signal, Watch))
    ensures
        !r.0.is_fired(),
        r.1 == r.0.watch_of(),
{
    (Signal { fired: false }, Watch { signaled: false })
}

impl Signal {
    /// Whether the signal was fired.
    pub closed spec fn is_fired(&self) -> bool {
        self.fired
    }

    /// The signal after it was fired.
    pub closed spec fn fired(self) -> Signal {
        Signal { fired: true }
    }

    /// What a watch sees of the signal.
    pub closed spec fn watch_of(&self) -> Watch {
        Watch { signaled: self.fired }
    }

    /// Fires the signal. Says whether this call began the drain: a signal
    /// that was fired before stays as it is.
    pub fn fire(&mut self) -> (began: bool)
        ensures
            *final(self) == old(self).fired(),
            began == !old(self).is_fired(),
    {
        let began = !self.fired;
        self.fired = true;
        began
    }

    /// Whether the signal was fired.
    pub fn is_draining(&self) -> (r: bool)
        ensures
            r == self.is_fired(),
    {
        self.fired
    }

    /// A watch on the signal, as of now.
    pub fn watch(&self) -> (watch: Watch)
        ensures
            watch == self.watch_of(),
    {
        Watch { signaled: self.fired }
    }
}

impl Watch {
    /// Whether the watch saw the signal fired.
    pub closed spec fn is_signaled(&self) -> bool {
        self.signaled
    }

    /// Whether the watch saw the signal fired.
    pub fn signaled(&self) -> (r: bool)
        ensures
            r == self.is_signaled(),
    {
        self.signaled
    }
}

/// Firing is idempotent, and is seen at once: a signal fired twice is the
/// signal fired once, and a watch taken after a fire is signaled, while one
/// taken before any fire is signaled exactly when the signal had been fired.
pub proof fn lemma_fire_idempotent(signal: Signal)
    ensures
        signal.fired().fired() == signal.fired(),
        signal.fired().is_fired(),
        signal.fired().watch_of().is_signaled(),
        signal.watch_of().is_signaled() == signal.is_fired(),
{
}

/// A listener: how many of its connections are in flight, and whether it
/// still accepts new ones.
#[derive(Clone, Copy, Debug, PartialEq, Eq)]
pub enum Listener {
    /// New connections are accepted.
    Accepting { in_flight: u64 },
    /// The drain was signaled: no new connection is accepted, and those in
    /// flight run to their end.
    Draining { in_flight: u64 },
    /// The drain is complete: nothing is in flight and nothing is accepted.
    Drained,
}

/// What happens to a listener.
#[derive(Clone, Copy, Debug, PartialEq, Eq)]
pub enum Event {
    /// A peer connected.
    Connected,
    /// A connection in flight came to its end.
    Completed,
    /// The drain signal was seen.
    Signaled,
}

/// What a listener does about an event.
#[derive(Clone, Copy, Debug, PartialEq, Eq)]
pub enum Action {
    /// Serve the new connection.
    Serve,
    /// Turn the new connection away.
    Refuse,
    /// Go on as before.
    Continue,
    /// Stop accepting, and wait for the connections in flight.
    StopAccepting,
    /// Leave: the listener's task ends.
    Exit,
}

impl Listener {
    /// A listener with nothing in flight.
    pub fn new() -> (listener: Listener)
        ensures
            listener == (Listener::Accepting { in_flight: 0 }),
    {
        Listener::Accepting { in_flight: 0 }
    }

    /// The number of connections in flight.
    pub open spec fn in_flight(self) -> nat {
        match self {
            Listener::Accepting { in_flight } => in_flight as nat,
            Listener::Draining { in_flight } => in_flight as nat,
            Listener::Drained => 0,
        }
    }

    /// The listener after `event`.
    pub open spec fn after(self, event: Event) -> Listener {
        match self {
            Listener::Accepting { in_flight } => match event {
                Event::Connected => if in_flight < u64::MAX {
                    Listener::Accepting { in_flight: (in_flight + 1) as u64 }
                } else {
                    self
                },
                Event::Completed => if in_flight > 0 {
                    Listener::Accepting { in_flight: (in_flight - 1) as u64 }
                } else {
                    self
                },
                Event::Signaled => if in_flight == 0 {
                    Listener::Drained
                } else {
                    Listener::Draining { in_flight }
                },
            },
            Listener::Draining { in_flight } => match event {
                Event::Completed => if in_flight <= 1 {
                    Listener::Drained
                } else {
                    Listener::Draining { in_flight: (in_flight - 1) as u64 }
                },
                _ => self,
            },
            Listener::Drained => self,
        }
    }

    /// What the listener does about `event`.
    pub open spec fn reaction(self, event: Event) -> Action {
        match self {
            Listener::Accepting { in_flight } => match event {
                Event::Connected => if in_flight < u64::MAX {
                    Action::Serve
                } else {
                    Action::Refuse
                },
                Event::Completed => Action::Continue,
                Event::Signaled => if in_flight == 0 {
                    Action::Exit
                } else {
                    Action::StopAccepting
                },
            },
            Listener::Draining { in_flight } => match event {
                Event::Connected => Action::Refuse,
                Event::Completed => if in_flight <= 1 {
                    Action::Exit
                } else {
                    Action::Continue
                },
                Event::Signaled => Action::Continue,
            },
            Listener::Drained => match event {
                Event::Connected => Action::Refuse,
                _ => Action::Exit,
            },
        }
    }

    /// Whether the listener has seen the drain signal.
    pub open spec fn is_draining(self) -> bool {
        !(self is Accepting)
    }

    /// Takes `event`: the listener moves on and says what is to be done.
    pub fn handle(&mut self, event: Event) -> (action: Action)
        ensures
            *final(self) == old(self).after(event),
            action == old(self).reaction(event),
    {
        let (next, action) = match *self {
            Listener::Accepting { in_flight } => match event {
                Event::Connected => if in_flight < u64::MAX {
                    (Listener::Accepting { in_flight: in_flight + 1 }, Action::Serve)
                } else {
                    (*self, Action::Refuse)
                },
                Event::Completed => if in_flight > 0 {
                    (Listener::Accepting { in_flight: in_flight - 1 }, Action::Continue)
                } else {
                    (*self, Action::Continue)
                },
                Event::Signaled => if in_flight == 0 {
                    (Listener::Drained, Action::Exit)
                } else {
                    (Listener::Draining { in_flight }, Action::StopAccepting)
                },
            },
            Listener::Draining { in_flight } => match event {
                Event::Connected => (*self, Action::Refuse),
                Event::Completed => if in_flight <= 1 {
                    (Listener::Drained, Action::Exit)
                } else {
                    (Listener::Draining { in_flight: in_flight - 1 }, Action::Continue)
                },
                Event::Signaled => (*self, Action::Continue),
            },
            Listener::Drained => match event {
                Event::Connected => (*self, Action::Refuse),
                _ => (*self, Action::Exit),
            },
        };
        *self = next;
        action
    }

    /// The listener after all of `events`, in order.
    pub open spec fn after_all(self, events: Seq<Event>) -> Listener
        decreases events.len(),
    {
        if events.len() == 0 {
            self
        } else {
            self.after_all(events.drop_last()).after(events.last())
        }
    }
}

/// A drain is graceful and final. Once a listener has seen the signal it
/// stays draining whatever follows and serves no new connection; the
/// number in flight never grows; the listener leaves only with nothing in
/// flight; and seeing the signal again changes nothing.
pub proof fn lemma_drain_is_graceful(listener: Listener, event: Event)
    requires
        listener.is_draining(),
    ensures
        listener.after(event).is_draining(),
        listener.reaction(event) != Action::Serve,
        listener.after(event).in_flight() <= listener.in_flight(),
        listener.reaction(event) is Exit ==> listener.after(event) is Drained,
        listener.after(event) is Drained ==> listener.after(event).in_flight() == 0,
        listener.after(Event::Signaled) == listener,
{
}

/// After the signal, however many events follow, the listener is still
/// draining and holds no more connections than when the signal came.
pub proof fn lemma_no_work_after_signal(listener: Listener, events: Seq<Event>)
    ensures
        listener.after(Event::Signaled).after_all(events).is_draining(),
        listener.after(Event::Signaled).after_all(events).in_flight() <= listener.in_flight(),
    decreases events.len(),
{
    if events.len() > 0 {
        lemma_no_work_after_signal(listener, events.drop_last());
        lemma_drain_is_graceful(
            listener.after(Event::Signaled).after_all(events.drop_last()),
            events.last(),
        );
    }
}

} // verus!
