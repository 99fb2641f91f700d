//! Whole runs: what the driver does over a sequence of reported events, and
//! what holds of every run.

use vstd::prelude::*;
use crate::config::ConfigView;
use crate::outcome::Failure;
use crate::outcome::OutcomeView;
use crate::pipeline::ActionView;
use crate::pipeline::EventView;
use crate::pipeline::Phase;
use crate::pipeline::PipelineView;
use crate::pipeline::Transfer;
use crate::pipeline::build_request;
use crate::pipeline::consistent;
use crate::pipeline::initial;
use crate::pipeline::stage_request;
use crate::pipeline::step;
use crate::layout::boot_directory;

verus! {

/// The state that follows when `event` is reported in `state`. An event that
/// is not awaited changes nothing.
pub open spec fn state_next(state: PipelineView, event: EventView) -> PipelineView {
    match step(state, event) {
        Some((next, _)) => next,
        None => state,
    }
}

/// The state that the machine is in after `events` were reported in `state`,
/// one after the other.
pub open spec fn state_after(state: PipelineView, events: Seq<EventView>) -> PipelineView
    decreases events.len(),
{
    if events.len() == 0 {
        state
    } else {
        state_after(state_next(state, events[0]), events.drop_first())
    }
}

/// The actions that the machine asks for while `events` are reported in
/// `state`, in their order.
pub open spec fn actions_of(state: PipelineView, events: Seq<EventView>) -> Seq<ActionView>
    decreases events.len(),
{
    if events.len() == 0 {
        Seq::empty()
    } else {
        match step(state, events[0]) {
            Some((next, action)) => seq![action] + actions_of(next, events.drop_first()),
            None => actions_of(state, events.drop_first()),
        }
    }
}

/// The place of a phase in the order of a run.
pub open spec fn rank(phase: Phase) -> int {
    match phase {
        Phase::Start => 0,
        Phase::ConfigLoaded => 1,
        Phase::Built => 2,
        Phase::Staged => 3,
        Phase::FirmwareVerified => 4,
        Phase::Launched => 5,
        Phase::Finished => 6,
    }
}

/// The staging directory that a state holds: none or one.
pub open spec fn held(state: PipelineView) -> Seq<Seq<char>> {
    match state.staging {
        Some(root) => seq![root],
        None => Seq::empty(),
    }
}

/// The staging directory that an accepted event reports as made: none or one.
pub open spec fn made_by(state: PipelineView, event: EventView) -> Seq<Seq<char>> {
    if step(state, event) is Some {
        match event {
            EventView::Staged { root } => seq![root],
            EventView::StagingFailed { partial: Some(root) } => seq![root],
            _ => Seq::empty(),
        }
    } else {
        Seq::empty()
    }
}

/// The staging directory that an action has released: none or one.
pub open spec fn released_by(action: ActionView) -> Seq<Seq<char>> {
    match action {
        ActionView::Finish { outcome, release: Some(root) } => seq![root],
        _ => Seq::empty(),
    }
}

/// The staging directories that are reported as made while `events` are
/// reported in `state`.
pub open spec fn made(state: PipelineView, events: Seq<EventView>) -> Seq<Seq<char>>
    decreases events.len(),
{
    if events.len() == 0 {
        Seq::empty()
    } else {
        match step(state, events[0]) {
            Some((next, _)) => made_by(state, events[0]) + made(next, events.drop_first()),
            None => made(state, events.drop_first()),
        }
    }
}

/// The staging directories that the machine has released while `events` are
/// reported in `state`.
pub open spec fn released(state: PipelineView, events: Seq<EventView>) -> Seq<Seq<char>>
    decreases events.len(),
{
    if events.len() == 0 {
        Seq::empty()
    } else {
        match step(state, events[0]) {
            Some((next, action)) => released_by(action) + released(next, events.drop_first()),
            None => released(state, events.drop_first()),
        }
    }
}

/// The request to end the run by a failure on `subject`, with `release` to
/// remove.
pub open spec fn failed(failure: Failure, subject: Seq<char>, release: Option<Seq<char>>) -> ActionView {
    ActionView::Finish { outcome: OutcomeView::Failed { failure, subject }, release }
}

/// Whether an event reports both firmware images as present.
pub open spec fn both_images_present(event: EventView) -> bool {
    match event {
        EventView::FirmwareFound { code_present, vars_present, .. } => code_present
            && vars_present,
        _ => false,
    }
}

/// A step leads from a consistent state to a consistent state.
pub proof fn lemma_step_keeps_consistency(state: PipelineView, event: EventView)
    requires
        consistent(state),
    ensures
        step(state, event) matches Some((next, _)) ==> consistent(next),
{
}

/// A run only moves forward: every accepted event leads to a later phase.
pub proof fn lemma_step_moves_forward(state: PipelineView, event: EventView)
    ensures
        step(state, event) matches Some((next, _)) ==> rank(state.phase) < rank(next.phase),
{
}

/// The end is final: once a run is over, no event changes the state or asks
/// for anything. No step is tried again.
pub proof fn lemma_nothing_after_the_end(state: PipelineView, events: Seq<EventView>)
    requires
        state.phase == Phase::Finished,
    ensures
        state_after(state, events) == state,
        actions_of(state, events) == Seq::<ActionView>::empty(),
    decreases events.len(),
{
    if events.len() > 0 {
        lemma_nothing_after_the_end(state, events.drop_first());
    }
}

/// Every run is consistent throughout.
pub proof fn lemma_run_keeps_consistency(state: PipelineView, events: Seq<EventView>)
    requires
        consistent(state),
    ensures
        consistent(state_after(state, events)),
    decreases events.len(),
{
    if events.len() > 0 {
        lemma_run_keeps_consistency(state_next(state, events[0]), events.drop_first());
    }
}

/// A failed build ends the run. Where the configuration asks for a build and
/// the build tool exits without success or cannot be started, the machine
/// asks for the build and then for the end of the run, whatever is reported
/// afterwards: nothing is staged and the emulator is not started.
pub proof fn lemma_failed_build_stops_the_run(
    path: Seq<char>,
    config: ConfigView,
    events: Seq<EventView>,
)
    requires
        config.auto_build,
        events.len() >= 2,
        events[0] == EventView::ConfigLoaded(config),
        events[1] == (EventView::BuildExited { success: false }) || events[1]
            == EventView::BuildNotStarted,
    ensures
        actions_of(initial(path), events) == seq![
            build_request(config),
            failed(
                if events[1] == EventView::BuildNotStarted {
                    Failure::BuildSpawn
                } else {
                    Failure::BuildFailed
                },
                config.build_cmd,
                None,
            ),
        ],
        state_after(initial(path), events).phase == Phase::Finished,
{
    let start = initial(path);
    let loaded = state_next(start, events[0]);
    let rest = events.drop_first();
    assert(rest[0] == events[1]);
    let ended = state_next(loaded, rest[0]);
    let after = rest.drop_first();
    lemma_nothing_after_the_end(ended, after);
    let failure = if events[1] == EventView::BuildNotStarted {
        Failure::BuildSpawn
    } else {
        Failure::BuildFailed
    };
    assert(actions_of(loaded, rest) =~= seq![failed(failure, config.build_cmd, None)]);
    assert(actions_of(start, events) =~= seq![
        build_request(config),
        failed(failure, config.build_cmd, None),
    ]);
    assert(state_after(loaded, rest) == state_after(ended, after));
}

/// The emulator is started only behind the firmware gate: the machine asks
/// for its launch only when, with the artifact staged, both firmware images
/// are reported present.
pub proof fn lemma_launch_needs_firmware(state: PipelineView, event: EventView)
    ensures
        step(state, event) matches Some((_, ActionView::Launch { .. })) ==> state.phase
            == Phase::Staged && both_images_present(event),
{
}

/// Absent firmware ends the run. Where, with the artifact staged, one or both
/// firmware images are reported absent, the machine asks for the end of the
/// run with the staging directory released, and for nothing else, whatever is
/// reported afterwards: the emulator is not started.
pub proof fn lemma_missing_firmware_stops_the_run(state: PipelineView, events: Seq<EventView>)
    requires
        consistent(state),
        state.phase == Phase::Staged,
        events.len() >= 1,
        events[0] is FirmwareFound,
        !both_images_present(events[0]),
    ensures
        actions_of(state, events) == seq![
            failed(Failure::FirmwareMissing, state.config->0.ovmf_path, state.staging),
        ],
        state_after(state, events).phase == Phase::Finished,
{
    let ended = state_next(state, events[0]);
    let after = events.drop_first();
    lemma_nothing_after_the_end(ended, after);
    assert(actions_of(state, events) =~= seq![
        failed(Failure::FirmwareMissing, state.config->0.ovmf_path, state.staging),
    ]);
}

/// The artifact is staged as the configuration says: whenever the machine
/// asks for staging, it asks for the configured artifact to be placed under
/// its configured name in the boot directory, moved where the configuration
/// says to move it and copied where not.
pub proof fn lemma_staging_follows_configuration(state: PipelineView, event: EventView)
    requires
        consistent(state),
    ensures
        step(state, event) matches Some((next, action)) ==> (action is Stage ==> next.config
            is Some && action == stage_request(next.config->0)),
        forall|config: ConfigView|
            #![trigger stage_request(config)]
            stage_request(config) == (ActionView::Stage {
                source: config.binary_path,
                directory: boot_directory(),
                name: config.efi_name,
                transfer: if config.move_binary {
                    Transfer::Move
                } else {
                    Transfer::Copy
                },
            }),
{
}

/// In one step no staging directory is lost: what was held and what the event
/// reports as made is what the action releases and what is held afterwards.
pub proof fn lemma_step_accounts_for_staging(state: PipelineView, event: EventView)
    requires
        consistent(state),
    ensures
        step(state, event) matches Some((next, action)) ==> held(state) + made_by(state, event)
            == released_by(action) + held(next),
{
    match step(state, event) {
        Some((next, action)) => {
            assert(held(state) + made_by(state, event) =~= released_by(action) + held(next));
        },
        None => {},
    }
}

/// Over a run no staging directory is lost: what was held at first and what
/// was made since is what has been released and what is still held.
pub proof fn lemma_run_accounts_for_staging(state: PipelineView, events: Seq<EventView>)
    requires
        consistent(state),
    ensures
        held(state) + made(state, events) == released(state, events) + held(
            state_after(state, events),
        ),
    decreases events.len(),
{
    if events.len() == 0 {
        assert(held(state) + made(state, events) =~= released(state, events) + held(state));
    } else {
        let rest = events.drop_first();
        match step(state, events[0]) {
            Some((next, action)) => {
                assert(state_next(state, events[0]) == next);
                lemma_step_keeps_consistency(state, events[0]);
                lemma_step_accounts_for_staging(state, events[0]);
                lemma_run_accounts_for_staging(next, rest);
                let end = state_after(next, rest);
                assert(held(state) + (made_by(state, events[0]) + made(next, rest)) =~= (held(state)
                    + made_by(state, events[0])) + made(next, rest));
                assert((released_by(action) + held(next)) + made(next, rest) =~= released_by(action)
                    + (held(next) + made(next, rest)));
                assert(released_by(action) + (released(next, rest) + held(end)) =~= (released_by(
                    action,
                ) + released(next, rest)) + held(end));
            },
            None => {
                assert(state_next(state, events[0]) == state);
                lemma_run_accounts_for_staging(state, rest);
            },
        }
    }
}

/// Cleanup on every path: when a run is over, however it ended, every staging
/// directory that was made during it has been released, and none is held.
pub proof fn lemma_finished_run_has_released_staging(path: Seq<char>, events: Seq<EventView>)
    requires
        state_after(initial(path), events).phase == Phase::Finished,
    ensures
        released(initial(path), events) == made(initial(path), events),
        state_after(initial(path), events).staging is None,
{
    let start = initial(path);
    lemma_run_keeps_consistency(start, events);
    lemma_run_accounts_for_staging(start, events);
    assert(held(start) + made(start, events) =~= made(start, events));
    assert(released(start, events) + held(state_after(start, events)) =~= released(start, events));
}

} // verus!
