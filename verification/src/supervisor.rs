//! The proxy supervisor: a state machine over the backend process lifecycle
//! and the count of in-flight relayed connections.
//!
//! The control loop that drives this machine multiplexes two event sources,
//! new inbound connections and an inactivity timer tick, and is the only
//! place that mutates the backend handle. Relay tasks only touch the
//! connection counter, and they do so through the loop's bookkeeping calls
//! (`on_connect_ok` before a relay starts, `on_copier_done` when it ends).

use vstd::prelude::*;

verus! {

/// The backend process handle: either no process exists, or exactly one is
/// running, identified by its process id.
#[derive(Clone, Copy, Debug, PartialEq, Eq, Structural)]
pub enum Backend {
    Absent,
    Running { pid: u64 },
}

/// Where a freshly accepted connection is relayed to: the placeholder page
/// server, or the backend's own port. Decided once at accept time.
#[derive(Clone, Copy, Debug, PartialEq, Eq, Structural)]
pub enum Target {
    Placeholder,
    BackendPort,
}

/// One observable event of the control loop.
///
/// `Arrive` carries the process id that the launcher assigns in case this
/// arrival finds the backend absent and therefore spawns it. `ConnectOk` and
/// `ConnectFailed` report the outcome of the outbound connect attempt that
/// follows an arrival; `CopierDone` reports that one relay task finished;
/// `Tick` is the inactivity timer firing.
#[derive(Clone, Copy, Debug, PartialEq, Eq, Structural)]
pub enum Event {
    Arrive { pid: u64 },
    ConnectOk,
    ConnectFailed,
    CopierDone,
    Tick,
}

/// Spec-level view of the supervisor: the backend handle together with the
/// number of connections currently being relayed.
pub ghost struct Lifecycle {
    pub backend: Backend,
    pub active: nat,
}

/// The process id held by a backend handle, if any.
pub open spec fn pid_of(b: Backend) -> Option<u64> {
    match b {
        Backend::Running { pid } => Some(pid),
        Backend::Absent => None,
    }
}

/// The routing decision for a connection arriving in state `m`: the very
/// first connection after the backend was absent sees the placeholder page,
/// every later one goes to the backend port.
pub open spec fn route_of(m: Lifecycle) -> Target {
    if m.backend is Absent {
        Target::Placeholder
    } else {
        Target::BackendPort
    }
}

/// The transition function of the supervisor.
///
/// - An arrival spawns the backend exactly when it is absent; the counter is
///   untouched (it moves only on `ConnectOk`).
/// - A successful outbound connect increments the counter.
/// - A failed outbound connect resets the backend to absent (a connect
///   failure is taken as a sign the process crashed or never came up).
/// - A finished relay decrements the counter.
/// - A timer tick evicts the backend only when no connection is active.
pub open spec fn spec_step(m: Lifecycle, ev: Event) -> Lifecycle {
    match ev {
        Event::Arrive { pid } => {
            if m.backend is Absent {
                Lifecycle { backend: Backend::Running { pid }, ..m }
            } else {
                m
            }
        },
        Event::ConnectOk => Lifecycle { active: m.active + 1, ..m },
        Event::ConnectFailed => Lifecycle { backend: Backend::Absent, ..m },
        Event::CopierDone => {
            Lifecycle {
                active: if m.active > 0 {
                    (m.active - 1) as nat
                } else {
                    0
                },
                ..m
            }
        },
        Event::Tick => {
            if m.active == 0 {
                Lifecycle { backend: Backend::Absent, ..m }
            } else {
                m
            }
        },
    }
}

/// Whether the step `ev` taken in state `m` spawns a backend process.
pub open spec fn step_spawns(m: Lifecycle, ev: Event) -> bool {
    ev is Arrive && m.backend is Absent
}

/// Whether the step `ev` taken in state `m` kills the backend process.
pub open spec fn step_kills(m: Lifecycle, ev: Event) -> bool {
    match ev {
        Event::ConnectFailed => m.backend is Running,
        Event::Tick => m.backend is Running && m.active == 0,
        _ => false,
    }
}

/// The supervisor's state, owned by the single control loop.
///
/// `backend_port` and `placeholder_port` come from the configuration and the
/// placeholder server's startup; they never change while the loop runs.
pub struct Supervisor {
    pub backend: Backend,
    pub active: u32,
    pub backend_port: u16,
    pub placeholder_port: u16,
}

impl View for Supervisor {
    type V = Lifecycle;

    open spec fn view(&self) -> Lifecycle {
        Lifecycle { backend: self.backend, active: self.active as nat }
    }
}

impl Supervisor {
    /// A fresh supervisor: no backend process, no active connections.
    pub fn new(backend_port: u16, placeholder_port: u16) -> (s: Self)
        ensures
            s.backend is Absent,
            s.active == 0,
            s.backend_port == backend_port,
            s.placeholder_port == placeholder_port,
    {
        Supervisor { backend: Backend::Absent, active: 0, backend_port, placeholder_port }
    }

    /// Whether the backend is currently absent, i.e. whether the next arrival
    /// will have to spawn it. The loop reads this before an arrival to know
    /// that it must launch the process and learn its id.
    pub fn backend_absent(&self) -> (r: bool)
        ensures
            r == (self.backend is Absent),
    {
        match self.backend {
            Backend::Absent => true,
            Backend::Running { .. } => false,
        }
    }

    /// The local port a connection routed to `t` must be connected to.
    pub fn port_for(&self, t: Target) -> (p: u16)
        ensures
            t is Placeholder ==> p == self.placeholder_port,
            t is BackendPort ==> p == self.backend_port,
    {
        match t {
            Target::Placeholder => self.placeholder_port,
            Target::BackendPort => self.backend_port,
        }
    }

    /// A connection arrived. If the backend is absent it is spawned (`pid` is
    /// the id the launcher assigned) and the connection is routed to the
    /// placeholder page; if it is already running the connection goes to the
    /// backend port. The routing target is decided here, once, and the
    /// connection never switches target later.
    pub fn on_arrival(&mut self, pid: u64) -> (t: Target)
        ensures
            final(self)@ == spec_step(old(self)@, Event::Arrive { pid }),
            t == route_of(old(self)@),
            old(self).backend is Absent ==> final(self).backend == (Backend::Running { pid }),
            old(self).backend is Running ==> final(self).backend == old(self).backend,
            final(self).active == old(self).active,
            final(self).backend_port == old(self).backend_port,
            final(self).placeholder_port == old(self).placeholder_port,
    {
        match self.backend {
            Backend::Absent => {
                self.backend = Backend::Running { pid };
                Target::Placeholder
            },
            Backend::Running { .. } => Target::BackendPort,
        }
    }

    /// The outbound connect for an arrival succeeded: one more connection is
    /// being relayed. Called before the relay task starts, so the counter
    /// never lags behind a running relay.
    pub fn on_connect_ok(&mut self)
        requires
            old(self).active < u32::MAX,
        ensures
            final(self)@ == spec_step(old(self)@, Event::ConnectOk),
            final(self).active == old(self).active + 1,
            final(self).backend == old(self).backend,
            final(self).backend_port == old(self).backend_port,
            final(self).placeholder_port == old(self).placeholder_port,
    {
        self.active = self.active + 1;
    }

    /// The outbound connect for an arrival failed. A running backend is taken
    /// to have crashed: the returned pid must be killed by the caller, and the
    /// state is reset to absent before any further connection is evaluated.
    /// The triggering connection is dropped; the counter is untouched.
    pub fn on_connect_failed(&mut self) -> (kill: Option<u64>)
        ensures
            final(self)@ == spec_step(old(self)@, Event::ConnectFailed),
            final(self).backend is Absent,
            kill == pid_of(old(self).backend),
            final(self).active == old(self).active,
            final(self).backend_port == old(self).backend_port,
            final(self).placeholder_port == old(self).placeholder_port,
    {
        match self.backend {
            Backend::Running { pid } => {
                self.backend = Backend::Absent;
                Some(pid)
            },
            Backend::Absent => None,
        }
    }

    /// One relay task finished (normally or with an I/O error): one less
    /// connection is being relayed. Always paired with an earlier
    /// `on_connect_ok`, which is why the counter cannot be zero here.
    pub fn on_copier_done(&mut self)
        requires
            old(self).active > 0,
        ensures
            final(self)@ == spec_step(old(self)@, Event::CopierDone),
            final(self).active == old(self).active - 1,
            final(self).backend == old(self).backend,
            final(self).backend_port == old(self).backend_port,
            final(self).placeholder_port == old(self).placeholder_port,
    {
        self.active = self.active - 1;
    }

    /// The inactivity timer fired, one full inactivity interval after the
    /// previous tick. If no connection is active and the backend is running,
    /// it is evicted: the returned pid must be killed by the caller. A tick
    /// with active connections, or with the backend already absent, is a
    /// no-op: eviction never interrupts an active connection and never
    /// double-kills.
    pub fn on_tick(&mut self) -> (kill: Option<u64>)
        ensures
            final(self)@ == spec_step(old(self)@, Event::Tick),
            old(self).active > 0 ==> final(self).backend == old(self).backend && kill is None,
            old(self).active == 0 ==> final(self).backend is Absent && kill == pid_of(
                old(self).backend,
            ),
            final(self).active == old(self).active,
            final(self).backend_port == old(self).backend_port,
            final(self).placeholder_port == old(self).placeholder_port,
    {
        if self.active == 0 {
            match self.backend {
                Backend::Running { pid } => {
                    self.backend = Backend::Absent;
                    Some(pid)
                },
                Backend::Absent => None,
            }
        } else {
            None
        }
    }
}

} // verus!
