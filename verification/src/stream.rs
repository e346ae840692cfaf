//! Decisions of a camera stream that pauses when there is no motion.
//!
//! With `pause.on_motion` set, the camera stream is relayed only while some
//! reason to stream holds: the first seconds after a client connects (so the
//! stream type can be negotiated), motion reported by the camera, or a
//! "Motion Alert" push notification received within the last half minute.
//! While streaming, a watchdog that sees no frame for a while either ends the
//! relay, when nobody consumes it any more, or forces a camera reconnect.

use vstd::prelude::*;
use crate::text::{contains, has_substring};

verus! {

/// What the camera's motion detector last reported.
#[derive(PartialEq, Eq, Structural, Clone, Copy, Debug)]
pub enum MdState {
    Start,
    Stop,
    Unknown,
}

/// The reasons to stream that currently hold.
#[derive(PartialEq, Eq, Structural, Clone, Copy, Debug)]
pub struct MotionPause {
    /// The startup window after the client connected is still open.
    pub startup: bool,
    /// The camera reports motion.
    pub motion: bool,
    /// Motion alert notifications whose hold has not yet expired.
    pub alerts: u64,
}

/// Whether the stream is relayed: some reason to stream holds.
pub open spec fn live(g: MotionPause) -> bool {
    g.startup || g.motion || g.alerts > 0
}

/// Whether the motion reason holds after the detector reports `md`, given
/// that it held (`motion`) before: motion starts it, a stop ends it, an
/// unknown state changes nothing.
pub open spec fn motion_after(motion: bool, md: MdState) -> bool {
    match md {
        MdState::Start => true,
        MdState::Stop => false,
        MdState::Unknown => motion,
    }
}

/// Whether a push notification message is a motion alert.
pub open spec fn is_alert_message(message: Seq<char>) -> bool {
    contains(message, "Motion Alert from"@)
}

/// A push notification is a motion alert exactly when its text contains
/// the seventeen characters `Motion Alert from` in a row.
pub proof fn lemma_alert_text(message: Seq<char>)
    ensures
        is_alert_message(message) <==> exists|i: int|
            0 <= i && i + 17 <= message.len() && #[trigger] message.subrange(i, i + 17)
                == "Motion Alert from"@,
{
    reveal_strlit("Motion Alert from");
    let needle = "Motion Alert from"@;
    assert(needle.len() == 17);
    if is_alert_message(message) {
        let i = choose|i: int|
            0 <= i && i + needle.len() <= message.len() && #[trigger] message.subrange(
                i,
                i + needle.len(),
            ) == needle;
        assert(message.subrange(i, i + 17) == needle);
    }
    if exists|i: int|
        0 <= i && i + 17 <= message.len() && #[trigger] message.subrange(i, i + 17) == needle {
        let i = choose|i: int|
            0 <= i && i + 17 <= message.len() && #[trigger] message.subrange(i, i + 17) == needle;
        assert(message.subrange(i, i + needle.len()) == needle);
    }
}

/// Liveness, motion and the transitions in plain terms: the stream is live
/// exactly when the startup window is open, motion holds or an alert is held;
/// a reported start of motion makes motion hold, a reported stop ends it,
/// and an unknown state keeps it.
pub proof fn lemma_live_and_motion(g: MotionPause, motion: bool)
    ensures
        live(g) <==> (g.startup || g.motion || g.alerts > 0),
        motion_after(motion, MdState::Start),
        !motion_after(motion, MdState::Stop),
        motion_after(motion, MdState::Unknown) == motion,
{
}

impl MotionPause {
    /// The state for a newly connected client, with the motion detector in
    /// state `md`: the startup window is open, motion holds only when the
    /// detector reports it, and no alert is held.
    pub fn new(md: MdState) -> (g: MotionPause)
        ensures
            g.startup,
            g.motion == (md == MdState::Start),
            g.alerts == 0,
            live(g),
    {
        let motion = match md {
            MdState::Start => true,
            _ => false,
        };
        MotionPause { startup: true, motion, alerts: 0 }
    }

    /// The startup window has closed.
    pub fn startup_elapsed(&mut self)
        ensures
            *final(self) == (MotionPause { startup: false, ..*old(self) }),
    {
        self.startup = false;
    }

    /// The motion detector reports `md`.
    pub fn motion_changed(&mut self, md: MdState)
        ensures
            *final(self) == (MotionPause { motion: motion_after(old(self).motion, md), ..*old(self) }),
    {
        match md {
            MdState::Start => self.motion = true,
            MdState::Stop => self.motion = false,
            MdState::Unknown => {},
        }
    }

    /// A push notification with text `message` arrived. A motion alert
    /// holds the stream open for half a minute; the result tells whether
    /// a hold started, in which case the driver calls `alert_expired` when
    /// it ends.
    pub fn push_notification(&mut self, message: &str) -> (held: bool)
        requires
            old(self).alerts < u64::MAX,
        ensures
            held == is_alert_message(message@),
            held == exists|i: int|
                0 <= i && i + 17 <= message@.len() && #[trigger] message@.subrange(i, i + 17)
                    == "Motion Alert from"@,
            *final(self) == (MotionPause {
                alerts: if held {
                    (old(self).alerts + 1) as u64
                } else {
                    old(self).alerts
                },
                ..*old(self)
            }),
    {
        let held = has_substring(message, "Motion Alert from");
        proof {
            lemma_alert_text(message@);
        }
        if held {
            self.alerts = self.alerts + 1;
        }
        held
    }

    /// The hold of one motion alert has ended.
    pub fn alert_expired(&mut self)
        requires
            old(self).alerts > 0,
        ensures
            *final(self) == (MotionPause { alerts: (old(self).alerts - 1) as u64, ..*old(self) }),
    {
        self.alerts = self.alerts - 1;
    }

    /// Whether the stream should be relayed now.
    pub fn is_live(&self) -> (is_live: bool)
        ensures
            is_live == live(*self),
    {
        self.startup || self.motion || self.alerts > 0
    }
}

/// Motion always makes the stream live, and with the startup window closed and no
/// alert held, a reported stop of motion pauses it: the stream pauses when
/// there is no motion.
pub proof fn lemma_motion_drives_pause(g: MotionPause, md: MdState)
    ensures
        md == MdState::Start ==> live(MotionPause { motion: motion_after(g.motion, md), ..g }),
        md == MdState::Stop && !g.startup && g.alerts == 0 ==> !live(
            MotionPause { motion: motion_after(g.motion, md), ..g },
        ),
        md == MdState::Unknown ==> (MotionPause { motion: motion_after(g.motion, md), ..g }) == g,
{
}

/// What the watchdog does when no frame arrived for half a minute.
#[derive(PartialEq, Eq, Structural, Clone, Copy, Debug)]
pub enum FrameTimeoutAction {
    /// Nobody consumes the stream any more: end it quietly.
    Finish,
    /// Shut the stream down, disconnect, wait a second, reconnect, and fail
    /// with a timeout so the stream is retried.
    Reconnect,
}

/// Decides what the watchdog does on a frame timeout, given whether the
/// consumer of the stream has gone.
pub fn frame_timeout_action(consumer_closed: bool) -> (action: FrameTimeoutAction)
    ensures
        action == (if consumer_closed {
            FrameTimeoutAction::Finish
        } else {
            FrameTimeoutAction::Reconnect
        }),
{
    if consumer_closed {
        FrameTimeoutAction::Finish
    } else {
        FrameTimeoutAction::Reconnect
    }
}


/// Something that changes the reasons to stream.
pub enum PauseEvent {
    /// The startup window has closed.
    StartupElapsed,
    /// The motion detector reports a state.
    Motion(MdState),
    /// A push notification with this text arrived.
    Notification(String),
    /// The hold of one motion alert has ended.
    AlertExpired,
}

/// The state for a newly connected client with the detector in state `md`.
pub open spec fn initial(md: MdState) -> MotionPause {
    MotionPause { startup: true, motion: md == MdState::Start, alerts: 0 }
}

/// The state after `event`, as the transitions of `MotionPause` make it.
pub open spec fn step(g: MotionPause, event: PauseEvent) -> MotionPause {
    match event {
        PauseEvent::StartupElapsed => MotionPause { startup: false, ..g },
        PauseEvent::Motion(md) => MotionPause { motion: motion_after(g.motion, md), ..g },
        PauseEvent::Notification(message) => if is_alert_message(message@) {
            MotionPause { alerts: (g.alerts + 1) as u64, ..g }
        } else {
            g
        },
        PauseEvent::AlertExpired => MotionPause { alerts: (g.alerts - 1) as u64, ..g },
    }
}

/// Whether `event` may happen in state `g`: an alert hold only ends when
/// one is held, and the count of held alerts does not overflow.
pub open spec fn step_allowed(g: MotionPause, event: PauseEvent) -> bool {
    match event {
        PauseEvent::Notification(_) => g.alerts < u64::MAX,
        PauseEvent::AlertExpired => g.alerts > 0,
        _ => true,
    }
}

/// The state after the events `events`, in order, starting from `g`.
pub open spec fn run(g: MotionPause, events: Seq<PauseEvent>) -> MotionPause
    decreases events.len(),
{
    if events.len() == 0 {
        g
    } else {
        step(run(g, events.drop_last()), events.last())
    }
}

/// Whether every event of `events` is allowed in the state it meets.
pub open spec fn run_allowed(g: MotionPause, events: Seq<PauseEvent>) -> bool
    decreases events.len(),
{
    if events.len() == 0 {
        true
    } else {
        run_allowed(g, events.drop_last()) && step_allowed(
            run(g, events.drop_last()),
            events.last(),
        )
    }
}

/// Whether `events` closes the startup window.
pub open spec fn startup_closed_in(events: Seq<PauseEvent>) -> bool {
    exists|i: int| 0 <= i < events.len() && #[trigger] events[i] is StartupElapsed
}

/// Whether the last motion state other than `Unknown` reported, starting
/// from `md`, is `Start`.
pub open spec fn last_motion_started(md: MdState, events: Seq<PauseEvent>) -> bool
    decreases events.len(),
{
    if events.len() == 0 {
        md == MdState::Start
    } else {
        match events.last() {
            PauseEvent::Motion(MdState::Start) => true,
            PauseEvent::Motion(MdState::Stop) => false,
            _ => last_motion_started(md, events.drop_last()),
        }
    }
}

/// How many motion alert notifications are in `events`.
pub open spec fn alerts_received(events: Seq<PauseEvent>) -> nat
    decreases events.len(),
{
    if events.len() == 0 {
        0
    } else {
        alerts_received(events.drop_last()) + match events.last() {
            PauseEvent::Notification(message) => if is_alert_message(message@) {
                1nat
            } else {
                0nat
            },
            _ => 0nat,
        }
    }
}

/// How many alert holds end in `events`.
pub open spec fn alerts_expired(events: Seq<PauseEvent>) -> nat
    decreases events.len(),
{
    if events.len() == 0 {
        0
    } else {
        alerts_expired(events.drop_last()) + match events.last() {
            PauseEvent::AlertExpired => 1nat,
            _ => 0nat,
        }
    }
}

/// The pause law of a motion-paused stream: after any allowed history of
/// events, the stream is live exactly when the startup window is still
/// open, or the last motion state reported other than `Unknown` is `Start`,
/// or more motion alerts arrived than alert holds ended.
pub proof fn lemma_pause_law(md: MdState, events: Seq<PauseEvent>)
    requires
        run_allowed(initial(md), events),
    ensures
        run(initial(md), events).startup == !startup_closed_in(events),
        run(initial(md), events).motion == last_motion_started(md, events),
        run(initial(md), events).alerts == alerts_received(events) - alerts_expired(events),
        live(run(initial(md), events)) <==> (!startup_closed_in(events) || last_motion_started(
            md,
            events,
        ) || alerts_received(events) > alerts_expired(events)),
    decreases events.len(),
{
    if events.len() > 0 {
        let prev = events.drop_last();
        lemma_pause_law(md, prev);
        assert(startup_closed_in(events) <==> (startup_closed_in(prev)
            || events.last() is StartupElapsed)) by {
            if startup_closed_in(events) {
                let i = choose|i: int|
                    0 <= i < events.len() && #[trigger] events[i] is StartupElapsed;
                if i < events.len() - 1 {
                    assert(prev[i] == events[i]);
                }
            }
            if startup_closed_in(prev) {
                let i = choose|i: int|
                    0 <= i < prev.len() && #[trigger] prev[i] is StartupElapsed;
                assert(events[i] == prev[i]);
            }
            if events.last() is StartupElapsed {
                assert(events[events.len() - 1] is StartupElapsed);
            }
        }
    } else {
        assert(!startup_closed_in(events));
    }
}

impl MotionPause {
    /// Applies one event.
    pub fn apply(&mut self, event: &PauseEvent)
        requires
            step_allowed(*old(self), *event),
        ensures
            *final(self) == step(*old(self), *event),
    {
        match event {
            PauseEvent::StartupElapsed => self.startup_elapsed(),
            PauseEvent::Motion(md) => self.motion_changed(*md),
            PauseEvent::Notification(message) => {
                let _ = self.push_notification(message.as_str());
            },
            PauseEvent::AlertExpired => self.alert_expired(),
        }
    }
}

/// Where the relay of a motion-paused stream stands.
#[derive(PartialEq, Eq, Structural, Clone, Copy, Debug)]
pub enum RelayState {
    /// Waiting until some reason to stream holds.
    Waiting,
    /// Relaying the camera stream to the consumer.
    Streaming,
    /// Ended cleanly: the consumer went away.
    Finished,
    /// Ended with an error.
    Failed,
}

/// What the relay observed.
#[derive(PartialEq, Eq, Structural, Clone, Copy, Debug)]
pub enum RelayEvent {
    /// The consumer of the stream went away.
    ConsumerClosed,
    /// Some reason to stream now holds.
    UsersAcquired,
    /// Waiting for a reason to stream failed.
    WaitFailed,
    /// No reason to stream holds any more.
    UsersDropped,
    /// Watching for the end of the reasons to stream failed.
    DropWatchFailed,
    /// The camera stream ended without error.
    StreamEnded,
    /// The camera stream failed.
    StreamFailed,
    /// A motion or notification watcher task ended.
    WatcherEnded,
}

/// What the driver does on entering the next state.
#[derive(PartialEq, Eq, Structural, Clone, Copy, Debug)]
pub enum RelayAction {
    /// Nothing changes.
    Nothing,
    /// Open the camera stream and relay it.
    StartStream,
    /// Stop relaying and wait for a reason to stream.
    PauseStream,
    /// Stop everything, ending the relay without error and its watcher tasks.
    Finish,
    /// Stop everything, ending the relay with an error and its watcher tasks.
    Fail,
}

/// The relay's next state and action on `event` in state `state`.
pub open spec fn relay_next(state: RelayState, event: RelayEvent) -> (RelayState, RelayAction) {
    match state {
        RelayState::Finished | RelayState::Failed => (state, RelayAction::Nothing),
        RelayState::Waiting => match event {
            RelayEvent::ConsumerClosed => (RelayState::Finished, RelayAction::Finish),
            RelayEvent::UsersAcquired => (RelayState::Streaming, RelayAction::StartStream),
            RelayEvent::WaitFailed => (RelayState::Failed, RelayAction::Fail),
            _ => (state, RelayAction::Nothing),
        },
        RelayState::Streaming => match event {
            RelayEvent::ConsumerClosed => (RelayState::Finished, RelayAction::Finish),
            RelayEvent::UsersDropped | RelayEvent::StreamEnded => (
                RelayState::Waiting,
                RelayAction::PauseStream,
            ),
            RelayEvent::DropWatchFailed | RelayEvent::StreamFailed | RelayEvent::WatcherEnded => (
                RelayState::Failed,
                RelayAction::Fail,
            ),
            _ => (state, RelayAction::Nothing),
        },
    }
}

/// Decides the relay's next state and action. While waiting, only the
/// consumer going away, the wait succeeding or the wait failing matter;
/// while streaming, the reasons ending or the camera stream ending pause it
/// (a stream that ended is reopened as soon as a reason holds), and a failed
/// stream, a failed watch or an ended watcher task fail the relay. The
/// consumer going away ends the relay cleanly in either state; an ended
/// relay stays ended.
pub fn relay_step(state: RelayState, event: RelayEvent) -> (next: (RelayState, RelayAction))
    ensures
        next == relay_next(state, event),
        (state == RelayState::Finished || state == RelayState::Failed) ==> next == (
            state,
            RelayAction::Nothing,
        ),
        (state == RelayState::Waiting || state == RelayState::Streaming) && event
            == RelayEvent::ConsumerClosed ==> next == (RelayState::Finished, RelayAction::Finish),
{
    proof {
        lemma_relay_table(state, event);
    }
    match state {
        RelayState::Finished | RelayState::Failed => (state, RelayAction::Nothing),
        RelayState::Waiting => match event {
            RelayEvent::ConsumerClosed => (RelayState::Finished, RelayAction::Finish),
            RelayEvent::UsersAcquired => (RelayState::Streaming, RelayAction::StartStream),
            RelayEvent::WaitFailed => (RelayState::Failed, RelayAction::Fail),
            _ => (state, RelayAction::Nothing),
        },
        RelayState::Streaming => match event {
            RelayEvent::ConsumerClosed => (RelayState::Finished, RelayAction::Finish),
            RelayEvent::UsersDropped | RelayEvent::StreamEnded => (
                RelayState::Waiting,
                RelayAction::PauseStream,
            ),
            RelayEvent::DropWatchFailed | RelayEvent::StreamFailed | RelayEvent::WatcherEnded => (
                RelayState::Failed,
                RelayAction::Fail,
            ),
            _ => (state, RelayAction::Nothing),
        },
    }
}

/// The relay table in plain terms: an ended relay (finished or failed)
/// stays as it is and does nothing, whatever it observes; the consumer going
/// away finishes a running relay cleanly; the stream starts only when a
/// waiting relay acquires a reason to stream; it pauses only when a streaming
/// relay loses its reasons or its camera stream ends; the relay fails only
/// on a failed wait while waiting, or a failed watch, a failed stream or an
/// ended watcher while streaming; and every action moves to the state it
/// names (doing nothing keeps the state).
pub proof fn lemma_relay_table(state: RelayState, event: RelayEvent)
    ensures
        (state == RelayState::Finished || state == RelayState::Failed) ==> relay_next(state, event)
            == (state, RelayAction::Nothing),
        (state == RelayState::Waiting || state == RelayState::Streaming) && event
            == RelayEvent::ConsumerClosed ==> relay_next(state, event) == (
            RelayState::Finished,
            RelayAction::Finish,
        ),
        relay_next(state, event).1 == RelayAction::StartStream <==> (state == RelayState::Waiting
            && event == RelayEvent::UsersAcquired),
        relay_next(state, event).1 == RelayAction::PauseStream <==> (state
            == RelayState::Streaming && (event == RelayEvent::UsersDropped || event
            == RelayEvent::StreamEnded)),
        relay_next(state, event).1 == RelayAction::Finish <==> ((state == RelayState::Waiting
            || state == RelayState::Streaming) && event == RelayEvent::ConsumerClosed),
        relay_next(state, event).1 == RelayAction::Fail <==> ((state == RelayState::Waiting
            && event == RelayEvent::WaitFailed) || (state == RelayState::Streaming && (event
            == RelayEvent::DropWatchFailed || event == RelayEvent::StreamFailed || event
            == RelayEvent::WatcherEnded))),
        relay_next(state, event).1 == RelayAction::StartStream ==> relay_next(state, event).0
            == RelayState::Streaming,
        relay_next(state, event).1 == RelayAction::PauseStream ==> relay_next(state, event).0
            == RelayState::Waiting,
        relay_next(state, event).1 == RelayAction::Finish ==> relay_next(state, event).0
            == RelayState::Finished,
        relay_next(state, event).1 == RelayAction::Fail ==> relay_next(state, event).0
            == RelayState::Failed,
        relay_next(state, event).1 == RelayAction::Nothing ==> relay_next(state, event).0
            == state,
{
}

/// A finished relay stays finished whatever it observes afterwards.
pub proof fn lemma_finished_stays_finished(events: Seq<RelayEvent>)
    ensures
        relay_run(RelayState::Finished, events) == RelayState::Finished,
    decreases events.len(),
{
    if events.len() > 0 {
        lemma_finished_stays_finished(events.drop_last());
    }
}

/// The state of the relay after the events `events`, in order, from `state`.
pub open spec fn relay_run(state: RelayState, events: Seq<RelayEvent>) -> RelayState
    decreases events.len(),
{
    if events.len() == 0 {
        state
    } else {
        relay_next(relay_run(state, events.drop_last()), events.last()).0
    }
}

/// The relay does not outlive its consumer: once the consumer goes away the
/// relay has ended (cleanly, unless it had already failed), whatever happens
/// afterwards; and when it had not failed before, it has finished cleanly.
pub proof fn lemma_relay_ends_with_consumer(events: Seq<RelayEvent>, i: int)
    requires
        0 <= i < events.len(),
        events[i] == RelayEvent::ConsumerClosed,
    ensures
        relay_run(RelayState::Waiting, events) == RelayState::Finished || relay_run(
            RelayState::Waiting,
            events,
        ) == RelayState::Failed,
        relay_run(RelayState::Waiting, events.take(i)) != RelayState::Failed ==> relay_run(
            RelayState::Waiting,
            events,
        ) == RelayState::Finished,
    decreases events.len(),
{
    if i < events.len() - 1 {
        assert(events.drop_last()[i] == events[i]);
        assert(events.drop_last().take(i) =~= events.take(i));
        lemma_relay_ends_with_consumer(events.drop_last(), i);
    } else {
        assert(events.drop_last() =~= events.take(i));
    }
}

/// Streaming only starts on a reason to stream being acquired: whenever the
/// relay streams after some events, one of them was `UsersAcquired`.
pub proof fn lemma_relay_streams_only_when_acquired(events: Seq<RelayEvent>)
    ensures
        relay_run(RelayState::Waiting, events) == RelayState::Streaming ==> exists|i: int|
            0 <= i < events.len() && #[trigger] events[i] == RelayEvent::UsersAcquired,
    decreases events.len(),
{
    if events.len() > 0 {
        let prev = events.drop_last();
        lemma_relay_streams_only_when_acquired(prev);
        if relay_run(RelayState::Waiting, events) == RelayState::Streaming {
            if relay_run(RelayState::Waiting, prev) == RelayState::Streaming {
                let i = choose|i: int| 0 <= i < prev.len() && #[trigger] prev[i] == RelayEvent::UsersAcquired;
                assert(events[i] == prev[i]);
            } else {
                assert(events[events.len() - 1] == RelayEvent::UsersAcquired);
            }
        }
    }
}


/// The relay's reaction to the reasons to stream now being `is_live`: a
/// waiting relay starts streaming when some reason holds, a streaming relay
/// pauses when none does, and otherwise nothing changes.
pub open spec fn follow_liveness(relay: RelayState, is_live: bool) -> (RelayState, RelayAction) {
    if relay == RelayState::Waiting && is_live {
        relay_next(relay, RelayEvent::UsersAcquired)
    } else if relay == RelayState::Streaming && !is_live {
        relay_next(relay, RelayEvent::UsersDropped)
    } else {
        (relay, RelayAction::Nothing)
    }
}

/// While the relay has not ended, it streams exactly when some reason to
/// stream holds.
pub open spec fn relay_follows(pause: MotionPause, relay: RelayState) -> bool {
    (relay == RelayState::Waiting || relay == RelayState::Streaming) ==> (relay
        == RelayState::Streaming <==> live(pause))
}

/// Whether a relay event comes from outside the reasons to stream (the
/// consumer, the camera stream, the watchers, or a failed wait or watch);
/// acquiring and dropping reasons follow from the pause state instead.
pub open spec fn is_outside_event(event: RelayEvent) -> bool {
    event != RelayEvent::UsersAcquired && event != RelayEvent::UsersDropped
}

/// A motion-paused stream: the reasons to stream together with the relay
/// that follows them.
pub struct PausedRelay {
    pub pause: MotionPause,
    pub relay: RelayState,
}

impl PausedRelay {
    /// A newly connected client with the detector in state `md`: the
    /// startup window is open, so the relay starts streaming.
    pub fn new(md: MdState) -> (s: (PausedRelay, RelayAction))
        ensures
            s.0.pause == initial(md),
            s.0.relay == RelayState::Streaming,
            s.1 == RelayAction::StartStream,
            relay_follows(s.0.pause, s.0.relay),
    {
        let pause = MotionPause::new(md);
        (PausedRelay { pause, relay: RelayState::Streaming }, RelayAction::StartStream)
    }

    /// A change of the reasons to stream: the pause state steps, and the
    /// relay starts or pauses the stream when liveness changed.
    pub fn on_pause_event(&mut self, event: &PauseEvent) -> (action: RelayAction)
        requires
            step_allowed(old(self).pause, *event),
            relay_follows(old(self).pause, old(self).relay),
        ensures
            final(self).pause == step(old(self).pause, *event),
            (final(self).relay, action) == follow_liveness(
                old(self).relay,
                live(final(self).pause),
            ),
            relay_follows(final(self).pause, final(self).relay),
    {
        self.pause.apply(event);
        let is_live = self.pause.is_live();
        let (relay, action) = if self.relay == RelayState::Waiting && is_live {
            relay_step(self.relay, RelayEvent::UsersAcquired)
        } else if self.relay == RelayState::Streaming && !is_live {
            relay_step(self.relay, RelayEvent::UsersDropped)
        } else {
            (self.relay, RelayAction::Nothing)
        };
        self.relay = relay;
        action
    }

    /// An event from outside the reasons to stream. The relay steps on it;
    /// a relay that went back to waiting (its camera stream ended) starts
    /// streaming again at once when some reason still holds. The result is
    /// the action of the event followed by the action of that restart.
    pub fn on_relay_event(&mut self, event: RelayEvent) -> (actions: (RelayAction, RelayAction))
        requires
            is_outside_event(event),
            relay_follows(old(self).pause, old(self).relay),
        ensures
            final(self).pause == old(self).pause,
            final(self).relay == follow_liveness(
                relay_next(old(self).relay, event).0,
                live(old(self).pause),
            ).0,
            actions == (relay_next(old(self).relay, event).1, follow_liveness(
                relay_next(old(self).relay, event).0,
                live(old(self).pause),
            ).1),
            relay_follows(final(self).pause, final(self).relay),
    {
        let (relay, first) = relay_step(self.relay, event);
        let is_live = self.pause.is_live();
        let (relay, second) = if relay == RelayState::Waiting && is_live {
            relay_step(relay, RelayEvent::UsersAcquired)
        } else if relay == RelayState::Streaming && !is_live {
            relay_step(relay, RelayEvent::UsersDropped)
        } else {
            (relay, RelayAction::Nothing)
        };
        self.relay = relay;
        (first, second)
    }

    /// Whether the camera stream is being relayed now.
    pub fn is_streaming(&self) -> (streaming: bool)
        ensures
            streaming == (self.relay == RelayState::Streaming),
    {
        match self.relay {
            RelayState::Streaming => true,
            _ => false,
        }
    }
}

} // verus!
