//! Laws of whole startup runs.
//!
//! A run is the sequence of phases the handshake passes through while a
//! sequence of events is consumed. The proof functions here state what
//! holds of every run: a failed settings read stops startup before any
//! network activity, a responsive backend is never spawned, no
//! non-terminal phase repeats (so there is at most one spawn attempt and
//! at most one fixed wait), the wait comes only after a spawn and the
//! re-probe only after the wait, and a non-success API status surfaces
//! its exact code in the exit diagnostic.

use vstd::prelude::*;

use crate::startup::ActionKind;
use crate::startup::ApiResult;
use crate::startup::Event;
use crate::startup::Failure;
use crate::startup::Phase;
use crate::startup::ProbeResult;
use crate::startup::diagnostic_spec;
use crate::startup::is_success_code;
use crate::startup::kind_of;
use crate::startup::spec_step;
use crate::text::dec_rep;

verus! {

/// The phases a run passes through: the initial phase, then one more
/// phase for each event consumed.
pub open spec fn run_states(events: Seq<Event>) -> Seq<Phase>
    decreases events.len(),
{
    if events.len() == 0 {
        seq![Phase::AwaitSettings]
    } else {
        let prev = run_states(events.drop_last());
        prev.push(spec_step(prev.last(), events.last()))
    }
}

/// A run has one more phase than it consumed events, and starts in
/// `AwaitSettings`.
pub proof fn lemma_run_shape(events: Seq<Event>)
    ensures
        run_states(events).len() == events.len() + 1,
        run_states(events)[0] == Phase::AwaitSettings,
    decreases events.len(),
{
    if events.len() > 0 {
        lemma_run_shape(events.drop_last());
    }
}

/// Each phase of a run after the first is the step out of the phase
/// before it, on the event consumed there.
pub proof fn lemma_run_index(events: Seq<Event>, i: int)
    requires
        0 <= i < events.len(),
    ensures
        run_states(events)[i + 1] == spec_step(run_states(events)[i], events[i]),
    decreases events.len(),
{
    lemma_run_shape(events);
    lemma_run_shape(events.drop_last());
    if i == events.len() - 1 {
        assert(run_states(events)[i] == run_states(events.drop_last()).last());
    } else {
        lemma_run_index(events.drop_last(), i);
        assert(events.drop_last()[i] == events[i]);
        assert(run_states(events)[i] == run_states(events.drop_last())[i]);
        assert(run_states(events)[i + 1] == run_states(events.drop_last())[i + 1]);
    }
}

/// One step out of a non-terminal phase strictly increases the rank; a
/// terminal phase absorbs every event unchanged.
pub proof fn lemma_step_rank(s: Phase, e: Event)
    ensures
        !s.is_terminal() ==> spec_step(s, e).rank() > s.rank(),
        s.is_terminal() ==> spec_step(s, e) == s,
{
}

/// Along a run the rank never decreases.
pub proof fn lemma_rank_nondecreasing(events: Seq<Event>, i: int, j: int)
    requires
        0 <= i <= j < run_states(events).len(),
    ensures
        run_states(events)[i].rank() <= run_states(events)[j].rank(),
    decreases j - i,
{
    lemma_run_shape(events);
    if i < j {
        lemma_rank_nondecreasing(events, i, j - 1);
        lemma_run_index(events, j - 1);
        lemma_step_rank(run_states(events)[j - 1], events[j - 1]);
    }
}

/// A non-terminal phase never comes back: every later phase of the run
/// has a strictly greater rank.
pub proof fn lemma_no_nonterminal_phase_repeats(events: Seq<Event>, i: int, j: int)
    requires
        0 <= i < j < run_states(events).len(),
        !run_states(events)[i].is_terminal(),
    ensures
        run_states(events)[i].rank() < run_states(events)[j].rank(),
{
    lemma_run_shape(events);
    lemma_run_index(events, i);
    lemma_step_rank(run_states(events)[i], events[i]);
    lemma_rank_nondecreasing(events, i + 1, j);
}

/// Once a run reaches a terminal phase it stays in it.
pub proof fn lemma_terminal_absorbing(events: Seq<Event>, i: int, j: int)
    requires
        0 <= i <= j < run_states(events).len(),
        run_states(events)[i].is_terminal(),
    ensures
        run_states(events)[j] == run_states(events)[i],
    decreases j - i,
{
    lemma_run_shape(events);
    if i < j {
        lemma_terminal_absorbing(events, i, j - 1);
        lemma_run_index(events, j - 1);
        lemma_step_rank(run_states(events)[j - 1], events[j - 1]);
    }
}

/// A missing or unreadable or malformed settings record stops startup
/// with exit code 1 before any network activity: every later phase is
/// `Failed`, and no phase of the run ever asks for a probe or a spawn.
pub proof fn lemma_settings_failure_stops_startup(events: Seq<Event>)
    requires
        events.len() >= 1,
        events[0] matches Event::SettingsRead { result: Err(_) },
    ensures
        forall|i: int|
            1 <= i < run_states(events).len() ==> (#[trigger] run_states(events)[i]) is Failed,
        forall|i: int|
            0 <= i < run_states(events).len() ==> kind_of(#[trigger] run_states(events)[i])
                != ActionKind::ProbeRoot && kind_of(run_states(events)[i]) != ActionKind::ProbeApi
                && kind_of(run_states(events)[i]) != ActionKind::SpawnBackend,
{
    lemma_run_shape(events);
    lemma_run_index(events, 0);
    assert(run_states(events)[1] is Failed);
    assert forall|i: int| 1 <= i < run_states(events).len() implies (#[trigger] run_states(
        events,
    )[i]) is Failed by {
        lemma_terminal_absorbing(events, 1, i);
    }
}

/// A backend that answers the first liveness probe successfully is never
/// spawned: no phase of the run asks for a spawn.
pub proof fn lemma_responsive_backend_skips_spawn(events: Seq<Event>)
    requires
        events.len() >= 2,
        events[0] matches Event::SettingsRead { result: Ok(_) },
        events[1] matches Event::RootProbed { result: ProbeResult::Response { code } }
            && is_success_code(code),
    ensures
        forall|i: int|
            0 <= i < run_states(events).len() ==> kind_of(#[trigger] run_states(events)[i])
                != ActionKind::SpawnBackend,
{
    lemma_run_shape(events);
    lemma_run_index(events, 0);
    lemma_run_index(events, 1);
    assert(run_states(events)[1] is AwaitFirstProbe);
    assert(run_states(events)[2] is AwaitApiProbe);
    assert forall|i: int| 0 <= i < run_states(events).len() implies kind_of(
        #[trigger] run_states(events)[i],
    ) != ActionKind::SpawnBackend by {
        if i > 2 {
            lemma_rank_nondecreasing(events, 2, i);
        }
    }
}

/// A backend that answers the first liveness probe unsuccessfully is
/// spawned exactly once: the phase right after that answer asks for the
/// spawn, and no other phase of the run ever does.
pub proof fn lemma_unresponsive_backend_spawns_once(events: Seq<Event>)
    requires
        events.len() >= 2,
        events[0] matches Event::SettingsRead { result: Ok(_) },
        events[1] matches Event::RootProbed { result: ProbeResult::Response { code } }
            && !is_success_code(code),
    ensures
        kind_of(run_states(events)[2]) == ActionKind::SpawnBackend,
        forall|j: int|
            0 <= j < run_states(events).len() && j != 2 ==> kind_of(
                #[trigger] run_states(events)[j],
            ) != ActionKind::SpawnBackend,
{
    lemma_run_shape(events);
    lemma_run_index(events, 0);
    lemma_run_index(events, 1);
    assert(run_states(events)[1] is AwaitFirstProbe);
    assert(run_states(events)[2] is AwaitSpawn);
    assert forall|j: int| 0 <= j < run_states(events).len() && j != 2 implies kind_of(
        #[trigger] run_states(events)[j],
    ) != ActionKind::SpawnBackend by {
        if j > 2 {
            lemma_no_nonterminal_phase_repeats(events, 2, j);
        }
    }
}

/// No run asks for more than one spawn attempt.
pub proof fn lemma_at_most_one_spawn_attempt(events: Seq<Event>, i: int, j: int)
    requires
        0 <= i < j < run_states(events).len(),
        kind_of(run_states(events)[i]) == ActionKind::SpawnBackend,
    ensures
        kind_of(run_states(events)[j]) != ActionKind::SpawnBackend,
{
    lemma_no_nonterminal_phase_repeats(events, i, j);
}

/// No run asks for more than one fixed-duration wait.
pub proof fn lemma_at_most_one_wait(events: Seq<Event>, i: int, j: int)
    requires
        0 <= i < j < run_states(events).len(),
        kind_of(run_states(events)[i]) == ActionKind::Sleep,
    ensures
        kind_of(run_states(events)[j]) != ActionKind::Sleep,
{
    lemma_no_nonterminal_phase_repeats(events, i, j);
}

/// The fixed wait happens only right after a successful spawn.
pub proof fn lemma_wait_follows_spawn(events: Seq<Event>, j: int)
    requires
        0 <= j < run_states(events).len(),
        run_states(events)[j] is AwaitSleep,
    ensures
        j >= 1,
        run_states(events)[j - 1] is AwaitSpawn,
        events[j - 1] matches Event::Spawned { ok: true },
{
    lemma_run_shape(events);
    if j >= 1 {
        lemma_run_index(events, j - 1);
    }
}

/// The liveness re-probe happens only right after the fixed wait.
pub proof fn lemma_recheck_follows_wait(events: Seq<Event>, j: int)
    requires
        0 <= j < run_states(events).len(),
        run_states(events)[j] is AwaitSecondProbe,
    ensures
        j >= 1,
        run_states(events)[j - 1] is AwaitSleep,
        events[j - 1] is Slept,
{
    lemma_run_shape(events);
    if j >= 1 {
        lemma_run_index(events, j - 1);
    }
}

/// A non-success status of the authenticated API probe fails the startup
/// with exactly that status, and the exit diagnostic carries exactly
/// that code in decimal.
pub proof fn lemma_api_error_surfaces_code(s: Phase, code: u16, version: Option<String>)
    requires
        s is AwaitApiProbe,
        !is_success_code(code),
    ensures
        spec_step(s, Event::ApiProbed { result: ApiResult::Response { code, version } })
            == (Phase::Failed { failure: Failure::ApiError { code } }),
        diagnostic_spec(Failure::ApiError { code }) == "Backend server returned an error: "@
            + dec_rep(code as nat),
{
}

} // verus!
