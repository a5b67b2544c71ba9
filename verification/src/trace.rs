//! Laws of the supervisor over whole event histories.
//!
//! A history is a sequence of [`Event`]s fed to [`spec_step`] from an initial
//! state. The lemmas here state the two global invariants of the design: at
//! most one backend process is ever alive, and the connection counter always
//! equals the number of relays that started and did not finish yet, so it
//! returns to zero at quiescence.

use vstd::prelude::*;

use crate::supervisor::Event;
use crate::supervisor::Lifecycle;
use crate::supervisor::spec_step;
use crate::supervisor::step_kills;
use crate::supervisor::step_spawns;

verus! {

/// The state reached by feeding the events of `evs`, in order, to
/// `spec_step`, starting from `m0`.
pub open spec fn run(m0: Lifecycle, evs: Seq<Event>) -> Lifecycle
    decreases evs.len(),
{
    if evs.len() == 0 {
        m0
    } else {
        spec_step(run(m0, evs.drop_last()), evs.last())
    }
}

/// A history is admissible when every `CopierDone` happens while at least one
/// relay is active. This is how relays behave: a relay task finishes only
/// after it was started, and starting it counted it.
pub open spec fn admissible(m0: Lifecycle, evs: Seq<Event>) -> bool
    decreases evs.len(),
{
    evs.len() == 0 || (admissible(m0, evs.drop_last()) && (evs.last() is CopierDone
        ==> run(m0, evs.drop_last()).active > 0))
}

/// How many steps of the history spawn a backend process.
pub open spec fn spawn_count(m0: Lifecycle, evs: Seq<Event>) -> nat
    decreases evs.len(),
{
    if evs.len() == 0 {
        0
    } else {
        spawn_count(m0, evs.drop_last()) + if step_spawns(run(m0, evs.drop_last()), evs.last()) {
            1nat
        } else {
            0nat
        }
    }
}

/// How many steps of the history kill the backend process.
pub open spec fn kill_count(m0: Lifecycle, evs: Seq<Event>) -> nat
    decreases evs.len(),
{
    if evs.len() == 0 {
        0
    } else {
        kill_count(m0, evs.drop_last()) + if step_kills(run(m0, evs.drop_last()), evs.last()) {
            1nat
        } else {
            0nat
        }
    }
}

/// How many events of the history start a relay (successful connects).
pub open spec fn start_count(evs: Seq<Event>) -> nat
    decreases evs.len(),
{
    if evs.len() == 0 {
        0
    } else {
        start_count(evs.drop_last()) + if evs.last() is ConnectOk {
            1nat
        } else {
            0nat
        }
    }
}

/// How many events of the history finish a relay.
pub open spec fn finish_count(evs: Seq<Event>) -> nat
    decreases evs.len(),
{
    if evs.len() == 0 {
        0
    } else {
        finish_count(evs.drop_last()) + if evs.last() is CopierDone {
            1nat
        } else {
            0nat
        }
    }
}

/// Single backend invariant: starting with no backend, after any history the
/// number of processes spawned exceeds the number killed by exactly one when
/// the state is `Running` and by zero when it is `Absent`. In other words, at
/// every instant at most one backend process handle is alive, and it is alive
/// exactly when the state says so.
pub proof fn lemma_single_backend(m0: Lifecycle, evs: Seq<Event>)
    requires
        m0.backend is Absent,
    ensures
        spawn_count(m0, evs) == kill_count(m0, evs) + if run(m0, evs).backend is Running {
            1nat
        } else {
            0nat
        },
        kill_count(m0, evs) <= spawn_count(m0, evs) <= kill_count(m0, evs) + 1,
    decreases evs.len(),
{
    if evs.len() > 0 {
        lemma_single_backend(m0, evs.drop_last());
    }
}

/// Counter balance: starting from a zero counter, after any admissible
/// history the counter equals the number of relays started minus the number
/// finished. At quiescence, when every started relay has finished, the
/// counter is back to zero.
pub proof fn lemma_counter_balance(m0: Lifecycle, evs: Seq<Event>)
    requires
        m0.active == 0,
        admissible(m0, evs),
    ensures
        run(m0, evs).active + finish_count(evs) == start_count(evs),
        finish_count(evs) <= start_count(evs),
        finish_count(evs) == start_count(evs) ==> run(m0, evs).active == 0,
    decreases evs.len(),
{
    if evs.len() > 0 {
        lemma_counter_balance(m0, evs.drop_last());
    }
}

} // verus!
