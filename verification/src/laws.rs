//! What holds of the watcher over any number of steps.

use crate::config::AppConfig;
use crate::timestamp::{changed_since, Timestamp};
use crate::watcher::{FileRead, Observation, Stage, WatchEvent, WatchState};
use vstd::prelude::*;

verus! {

/// The events of `times` checks in a row that each find the file last
/// modified at `stamp`: a tick and the answer to the query, over and over.
pub open spec fn checks_at(stamp: Timestamp, times: nat) -> Seq<WatchEvent>
    decreases times,
{
    if times == 0 {
        Seq::empty()
    } else {
        checks_at(stamp, (times - 1) as nat).push(WatchEvent::Tick).push(
            WatchEvent::Modified(Ok(stamp)),
        )
    }
}

/// Whether the read at every `Read` event of `events` fails to give a valid
/// configuration.
pub open spec fn every_read_fails(events: Seq<WatchEvent>) -> bool {
    forall|i: int|
        0 <= i < events.len() ==> (#[trigger] events[i] matches WatchEvent::Read(read)
            ==> read.loaded() is None)
}

/// A run that ends with `event` ends in the state that `event` leads to
/// from the state after the events before it.
pub proof fn lemma_after_all_push(state: WatchState, events: Seq<WatchEvent>, event: WatchEvent)
    ensures
        state.after_all(events.push(event)) == state.after_all(events).after(event),
{
    assert(events.push(event).drop_last() == events);
    assert(events.push(event).last() == event);
}

/// No step leads out of the well-formed states: whatever the watcher is
/// told, the configuration it holds is valid.
pub proof fn lemma_step_keeps_wf(state: WatchState, event: WatchEvent)
    requires
        state.wf(),
    ensures
        state.after(event).wf(),
{
}

/// No run of steps leads out of the well-formed states.
pub proof fn lemma_run_keeps_wf(state: WatchState, events: Seq<WatchEvent>)
    requires
        state.wf(),
    ensures
        state.after_all(events).wf(),
    decreases events.len(),
{
    if events.len() > 0 {
        lemma_run_keeps_wf(state, events.drop_last());
        lemma_step_keeps_wf(state.after_all(events.drop_last()), events.last());
    }
}

/// The recorded modification time only moves forward: once there is one, a
/// step leaves it as it is or replaces it by a later one.
pub proof fn lemma_last_modified_moves_forward(state: WatchState, event: WatchEvent)
    requires
        state.wf(),
        state.last_modified() is Some,
    ensures
        state.after(event).last_modified() matches Some(later) && later.nanos
            >= state.last_modified()->0.nanos,
        state.after(event).last_modified() != state.last_modified() ==> state.after(
            event,
        ).last_modified()->0.is_after(state.last_modified()->0),
{
}

/// The watcher always waits for something, and an event that does not
/// answer it changes nothing and is not reported.
pub proof fn lemma_unexpected_event_is_ignored(
    state: WatchState,
    event: WatchEvent,
    observation: Option<Observation>,
)
    requires
        !state.expects(event),
        state.emits(event, observation),
    ensures
        state.after(event) == state,
        observation is None,
{
}

/// Checking again and again a file whose modification time is the one
/// recorded changes nothing, neither the configuration held nor anything
/// else, and reports nothing.
pub proof fn lemma_unchanged_checks_change_nothing(
    state: WatchState,
    stamp: Timestamp,
    times: nat,
)
    requires
        state.stage is Idle,
        state.last_modified() == Some(stamp),
    ensures
        state.after_all(checks_at(stamp, times)) == state,
        forall|observation: Option<Observation>| #[trigger]
            state.emits(WatchEvent::Tick, observation) ==> observation is None,
        forall|observation: Option<Observation>| #[trigger]
            state.after(WatchEvent::Tick).emits(WatchEvent::Modified(Ok(stamp)), observation)
                ==> observation is None,
    decreases times,
{
    if times > 0 {
        let before = checks_at(stamp, (times - 1) as nat);
        lemma_unchanged_checks_change_nothing(state, stamp, (times - 1) as nat);
        lemma_after_all_push(state, before, WatchEvent::Tick);
        lemma_after_all_push(
            state,
            before.push(WatchEvent::Tick),
            WatchEvent::Modified(Ok(stamp)),
        );
        assert(state.after(WatchEvent::Tick).after(WatchEvent::Modified(Ok(stamp))) == state);
    }
}

/// Once a valid configuration is held, it stays the current one through
/// any run of events in which no read gives a valid configuration: a file
/// that is missing, unreadable, malformed or invalid, and queries that
/// fail, take nothing away.
pub proof fn lemma_failures_keep_current_config(state: WatchState, events: Seq<WatchEvent>)
    requires
        state.wf(),
        state.last_valid_config() is Some,
        every_read_fails(events),
    ensures
        state.after_all(events).last_valid_config() == state.last_valid_config(),
        state.after_all(events).last_modified() == state.last_modified(),
    decreases events.len(),
{
    if events.len() > 0 {
        let before = events.drop_last();
        assert(every_read_fails(before)) by {
            assert forall|i: int| 0 <= i < before.len() implies (#[trigger] before[i] matches WatchEvent::Read(
                read,
            ) ==> read.loaded() is None) by {
                assert(before[i] == events[i]);
            }
        }
        lemma_failures_keep_current_config(state, before);
        lemma_run_keeps_wf(state, before);
        assert(events[events.len() - 1] == events.last());
    }
}

/// A first load that fails leaves the watcher waiting for the next tick
/// with nothing held, so that the tick reads the file again whatever time
/// it was last modified at.
pub proof fn lemma_failed_first_load_is_tried_again(
    state: WatchState,
    read: FileRead,
    stamp: Timestamp,
)
    requires
        state.wf(),
        state.stage is InitialRead,
        read.loaded() is None,
    ensures
        state.after(WatchEvent::Read(read)).stage is Idle,
        state.after(WatchEvent::Read(read)).last_valid_config() is None,
        state.after(WatchEvent::Read(read)).last_modified() is None,
        state.after(WatchEvent::Read(read)).after(WatchEvent::Tick).after(
            WatchEvent::Modified(Ok(stamp)),
        ).stage == (Stage::Reloading { stamp }),
{
}

/// A watcher without configuration takes over the first valid one that it
/// reads. Whatever time the next tick finds the file modified at, the file
/// is read, and a read that gives a valid configuration makes it the
/// current one, records the time found, and is reported as an update with
/// the configuration's summary.
pub proof fn lemma_first_valid_config_is_taken(
    state: WatchState,
    stamp: Timestamp,
    read: FileRead,
    config: AppConfig,
    observation: Option<Observation>,
)
    requires
        state.stage is Idle,
        state.last_valid_config() is None,
        read.loaded() == Some(config),
        state.after(WatchEvent::Tick).after(WatchEvent::Modified(Ok(stamp))).emits(
            WatchEvent::Read(read),
            observation,
        ),
    ensures
        changed_since(state.last_modified(), stamp),
        state.after(WatchEvent::Tick).after(WatchEvent::Modified(Ok(stamp))).stage == (
            Stage::Reloading { stamp }),
        state.after(WatchEvent::Tick).after(WatchEvent::Modified(Ok(stamp))).after(
            WatchEvent::Read(read),
        ) == state.holding(config, stamp),
        config@.is_valid(),
        observation matches Some(Observation::Updated(summary)) && summary@ == config@.summary(),
{
}

/// A file is taken as changed exactly when its modification time is
/// strictly later than the one recorded. On a tick that finds it later,
/// the watcher reports a change and goes on to read the file; on one that
/// finds it at the recorded time or earlier, the watcher stays as it was
/// and reports nothing, whatever the file holds by then.
pub proof fn lemma_change_is_a_later_time(
    state: WatchState,
    seen: Timestamp,
    found: Timestamp,
    observation: Option<Observation>,
)
    requires
        state.stage is Idle,
        state.last_modified() == Some(seen),
        state.after(WatchEvent::Tick).emits(WatchEvent::Modified(Ok(found)), observation),
    ensures
        changed_since(state.last_modified(), found) <==> seen.nanos < found.nanos,
        seen.nanos < found.nanos ==> state.after(WatchEvent::Tick).after(
            WatchEvent::Modified(Ok(found)),
        ) == state.at(Stage::Reloading { stamp: found }),
        seen.nanos < found.nanos ==> observation == Some(Observation::ChangeDetected),
        found.nanos <= seen.nanos ==> state.after(WatchEvent::Tick).after(
            WatchEvent::Modified(Ok(found)),
        ) == state,
        found.nanos <= seen.nanos ==> observation is None,
{
}

/// A file that was modified but holds the content of the configuration
/// held is reported as unchanged content and not as an update. The time
/// found is recorded all the same.
pub proof fn lemma_same_content_is_no_update(
    state: WatchState,
    found: Timestamp,
    read: FileRead,
    config: AppConfig,
    observation: Option<Observation>,
)
    requires
        state.stage is Idle,
        changed_since(state.last_modified(), found),
        read.loaded() == Some(config),
        state.holds_content_of(config),
        state.after(WatchEvent::Tick).after(WatchEvent::Modified(Ok(found))).emits(
            WatchEvent::Read(read),
            observation,
        ),
    ensures
        observation == Some(Observation::ContentUnchanged),
        !observation->0.is_update(),
        state.after(WatchEvent::Tick).after(WatchEvent::Modified(Ok(found))).after(
            WatchEvent::Read(read),
        ) == state.holding(config, found),
        state.holding(config, found).last_modified() == Some(found),
        state.holding(config, found).holds_content_of(config),
{
}

/// A file that was modified and holds other content than the
/// configuration held is reported as an update with the summary of the new
/// configuration, which becomes the current one.
pub proof fn lemma_new_content_is_an_update(
    state: WatchState,
    found: Timestamp,
    read: FileRead,
    config: AppConfig,
    observation: Option<Observation>,
)
    requires
        state.stage is Idle,
        changed_since(state.last_modified(), found),
        read.loaded() == Some(config),
        !state.holds_content_of(config),
        state.after(WatchEvent::Tick).after(WatchEvent::Modified(Ok(found))).emits(
            WatchEvent::Read(read),
            observation,
        ),
    ensures
        observation matches Some(Observation::Updated(summary)) && summary@ == config@.summary(),
        state.after(WatchEvent::Tick).after(WatchEvent::Modified(Ok(found))).after(
            WatchEvent::Read(read),
        ).last_valid_config() == Some(config),
{
}

/// A reload that fails is reported with the error of the stage that
/// failed, and leaves configuration and recorded time as they were.
pub proof fn lemma_failed_reload_keeps_state(
    state: WatchState,
    found: Timestamp,
    read: FileRead,
    observation: Option<Observation>,
)
    requires
        state.stage is Idle,
        changed_since(state.last_modified(), found),
        read.loaded() is None,
        state.after(WatchEvent::Tick).after(WatchEvent::Modified(Ok(found))).emits(
            WatchEvent::Read(read),
            observation,
        ),
    ensures
        observation matches Some(Observation::ReloadFailed(error)) && read.fails_with(
            state.file_path,
            error,
        ),
        state.after(WatchEvent::Tick).after(WatchEvent::Modified(Ok(found))).after(
            WatchEvent::Read(read),
        ) == state,
{
}

} // verus!
