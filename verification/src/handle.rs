//! The coordination state and its transitions.
//!
//! One `Handle` value is the whole shared state of a server's lifecycle:
//! the published address, the live-connection count, the three one-shot
//! signals (shutdown, graceful shutdown, drain) and the recorded grace
//! deadline.  Control operations mutate it; wait primitives are split into
//! their decision halves: a poll that says whether the wait resolves now,
//! and a step that applies the effect of the event that ended the wait.

use vstd::prelude::*;

verus! {

/// A network address as plain values: the IP as one number (a v4 address
/// embedded in the v6 space) and the port.
#[derive(Clone, Copy, PartialEq, Eq, Debug)]
pub struct Addr {
    pub ip: u128,
    pub port: u16,
}

/// First poll of a `listening` wait: either it resolves at once with the
/// published address, or the caller must suspend until the next publish.
#[derive(Clone, Copy, PartialEq, Eq, Debug)]
pub enum ListenPoll {
    Ready(Option<Addr>),
    Pending,
}

/// How a `wait_connections_end` call must wait, decided from the state at
/// the moment the wait starts.
#[derive(Clone, Copy, PartialEq, Eq, Debug)]
pub enum DrainWait {
    /// No connection is live: the wait resolves immediately.
    AlreadyDrained,
    /// No deadline was recorded: wait for the drain signal alone.
    UntilDrain,
    /// A deadline (in milliseconds) was recorded: race a timer for that
    /// duration against the drain signal, the timer preferred on a tie.
    UntilDrainOrTimer(u64),
}

/// Which arm of the drain race resolved first.
#[derive(Clone, Copy, PartialEq, Eq, Debug)]
pub enum DrainEvent {
    /// The drain signal fired: every connection ended in time.
    Drained,
    /// The timer won: the grace period elapsed with connections still live.
    TimerExpired,
}

/// The shared lifecycle state of one server.
#[derive(Clone, Copy, PartialEq, Eq, Debug)]
pub struct Handle {
    /// The latest published address; `None` until the first publish, or
    /// after a publish that reports a failed bind.
    pub addr: Option<Addr>,
    /// Exactly the number of live connection guards.
    pub conn_count: usize,
    /// The one-shot hard-shutdown signal.
    pub shutdown_fired: bool,
    /// The one-shot graceful-shutdown signal.
    pub graceful_fired: bool,
    /// The grace deadline in milliseconds recorded by the latest graceful
    /// request; `None` means wait indefinitely for the drain.
    pub graceful_deadline_ms: Option<u64>,
    /// The one-shot drain signal: the count reached zero while a graceful
    /// shutdown was in effect.
    pub drain_fired: bool,
}

impl Handle {
    /// The freshly created state: nothing published, nothing signalled,
    /// no connection live.
    pub open spec fn spec_new() -> Handle {
        Handle {
            addr: None,
            conn_count: 0,
            shutdown_fired: false,
            graceful_fired: false,
            graceful_deadline_ms: None,
            drain_fired: false,
        }
    }

    /// Well-formedness: the drain signal only ever fires under a graceful
    /// shutdown already in effect.
    pub open spec fn wf(self) -> bool {
        self.drain_fired ==> self.graceful_fired
    }

    /// Effect of a hard-shutdown request: the shutdown signal fires, and
    /// nothing else changes.  Firing an already-fired signal changes nothing.
    pub open spec fn spec_shutdown(self) -> Handle {
        Handle { shutdown_fired: true, ..self }
    }

    /// Effect of a graceful-shutdown request: the recorded deadline is
    /// overwritten and the graceful signal fires.
    pub open spec fn spec_graceful_shutdown(self, deadline_ms: Option<u64>) -> Handle {
        Handle { graceful_fired: true, graceful_deadline_ms: deadline_ms, ..self }
    }

    /// Effect of publishing an address: the recorded address is overwritten,
    /// on every publish, rebinds included.
    pub open spec fn spec_notify_listening(self, addr: Option<Addr>) -> Handle {
        Handle { addr: addr, ..self }
    }

    /// Effect of creating a connection guard: the count rises by one.
    pub open spec fn spec_guard_created(self) -> Handle {
        Handle { conn_count: (self.conn_count + 1) as usize, ..self }
    }

    /// Effect of dropping a connection guard: the count falls by one, and
    /// if that transition reaches zero while the graceful signal has already
    /// fired, the drain signal fires.  A transient zero seen before any
    /// graceful request fires nothing.
    pub open spec fn spec_guard_dropped(self) -> Handle {
        if self.conn_count > 0 {
            Handle {
                conn_count: (self.conn_count - 1) as usize,
                drain_fired: self.drain_fired || (self.conn_count == 1 && self.graceful_fired),
                ..self
            }
        } else {
            self
        }
    }

    /// How a `wait_connections_end` call started in this state must wait.
    pub open spec fn spec_drain_plan(self) -> DrainWait {
        if self.conn_count == 0 {
            DrainWait::AlreadyDrained
        } else {
            match self.graceful_deadline_ms {
                Some(ms) => DrainWait::UntilDrainOrTimer(ms),
                None => DrainWait::UntilDrain,
            }
        }
    }

    /// Effect of the drain race resolving: a timer win escalates to a hard
    /// shutdown; a drain win changes nothing.
    pub open spec fn spec_drain_step(self, ev: DrainEvent) -> Handle {
        match ev {
            DrainEvent::TimerExpired => self.spec_shutdown(),
            DrainEvent::Drained => self,
        }
    }

    /// What a `listening` wait does when it starts in this state.
    pub open spec fn spec_listening_poll(self) -> ListenPoll {
        match self.addr {
            Some(a) => ListenPoll::Ready(Some(a)),
            None => ListenPoll::Pending,
        }
    }

    /// Create a new handle state.
    pub fn new() -> (h: Handle)
        ensures
            h == Handle::spec_new(),
    {
        Handle {
            addr: None,
            conn_count: 0,
            shutdown_fired: false,
            graceful_fired: false,
            graceful_deadline_ms: None,
            drain_fired: false,
        }
    }

    /// The number of live connections: a non-blocking snapshot.
    pub fn connection_count(&self) -> (n: usize)
        ensures
            n == self.conn_count,
    {
        self.conn_count
    }

    /// Request a hard shutdown.  Idempotent: any further call leaves the
    /// state exactly as the first left it.
    pub fn shutdown(&mut self)
        ensures
            *final(self) == old(self).spec_shutdown(),
    {
        self.shutdown_fired = true;
    }

    /// Request a graceful shutdown with an optional grace deadline in
    /// milliseconds; `None` means an indefinite grace period.  Each call
    /// overwrites the recorded deadline; the signal fires at most once.
    pub fn graceful_shutdown(&mut self, deadline_ms: Option<u64>)
        ensures
            *final(self) == old(self).spec_graceful_shutdown(deadline_ms),
    {
        self.graceful_deadline_ms = deadline_ms;
        self.graceful_fired = true;
    }

    /// Publish the address the server is listening on, or `None` for a
    /// failed bind.  Overwrites the recorded address on every call.
    pub fn notify_listening(&mut self, addr: Option<Addr>)
        ensures
            *final(self) == old(self).spec_notify_listening(addr),
    {
        self.addr = addr;
    }

    /// Start a wait for the listening address: resolves at once with the
    /// address if one is already published, and is pending otherwise.  A
    /// pending waiter suspends until the next publish and then reads
    /// `listening_resolved`.
    pub fn listening(&self) -> (p: ListenPoll)
        ensures
            p == self.spec_listening_poll(),
    {
        match self.addr {
            Some(a) => ListenPoll::Ready(Some(a)),
            None => ListenPoll::Pending,
        }
    }

    /// What a `listening` waiter woken by a publish resolves with: the
    /// address recorded at that moment, which is `None` when the publish
    /// reported a failed bind.
    pub fn listening_resolved(&self) -> (a: Option<Addr>)
        ensures
            a == self.addr,
    {
        self.addr
    }

    /// Poll of a `wait_shutdown` wait: it resolves exactly when the
    /// shutdown signal has fired.
    pub fn wait_shutdown(&self) -> (resolved: bool)
        ensures
            resolved == self.shutdown_fired,
    {
        self.shutdown_fired
    }

    /// Poll of a `wait_graceful_shutdown` wait: it resolves exactly when
    /// the graceful signal has fired.
    pub fn wait_graceful_shutdown(&self) -> (resolved: bool)
        ensures
            resolved == self.graceful_fired,
    {
        self.graceful_fired
    }

    /// Poll of a wait for the drain signal: it resolves exactly when the
    /// drain signal has fired.
    pub fn wait_drained(&self) -> (resolved: bool)
        ensures
            resolved == self.drain_fired,
    {
        self.drain_fired
    }

    /// Decide how a wait for the connections to end must proceed: resolve
    /// at once on a zero count, wait for the drain signal alone when no
    /// deadline is recorded, and race the drain signal against a timer for
    /// the recorded deadline otherwise.
    pub fn wait_connections_end(&self) -> (plan: DrainWait)
        ensures
            plan == self.spec_drain_plan(),
    {
        if self.conn_count == 0 {
            DrainWait::AlreadyDrained
        } else {
            match self.graceful_deadline_ms {
                Some(ms) => DrainWait::UntilDrainOrTimer(ms),
                None => DrainWait::UntilDrain,
            }
        }
    }

    /// Apply the outcome of the drain race: when the timer wins, the hard
    /// shutdown is triggered so still-open connections are force-closed;
    /// when the drain signal wins, nothing changes.
    pub fn drain_step(&mut self, ev: DrainEvent)
        ensures
            *final(self) == old(self).spec_drain_step(ev),
    {
        match ev {
            DrainEvent::TimerExpired => self.shutdown(),
            DrainEvent::Drained => (),
        }
    }

    /// A connection guard was created: count one more live connection.
    /// The count is bounded by the machine word, since each live guard is
    /// a distinct value in memory.
    pub fn guard_created(&mut self)
        requires
            old(self).conn_count < usize::MAX,
        ensures
            *final(self) == old(self).spec_guard_created(),
    {
        self.conn_count = self.conn_count + 1;
    }

    /// A connection guard was dropped: count one less live connection, and
    /// fire the drain signal exactly when this drop takes the count to zero
    /// while a graceful shutdown is already in effect.  Returns whether this
    /// very drop fired the drain signal, so the caller can wake drain
    /// waiters.  A live guard always accounts for one unit of the count, so
    /// the count is positive when a guard drops.
    pub fn guard_dropped(&mut self) -> (drained_now: bool)
        requires
            old(self).conn_count >= 1,
        ensures
            *final(self) == old(self).spec_guard_dropped(),
            drained_now == (old(self).conn_count == 1 && old(self).graceful_fired),
    {
        self.conn_count = self.conn_count - 1;
        if self.conn_count == 0 && self.graceful_fired {
            self.drain_fired = true;
            true
        } else {
            false
        }
    }
}

impl Default for Handle {
    /// Same as `new`.
    fn default() -> (h: Handle)
        ensures
            h == Handle::spec_new(),
    {
        Handle::new()
    }
}

} // verus!
