//! Lifecycle reactor: maps app-lifecycle transition events to play/pause
//! commands on the audio sink.
//!
//! The mapping is stateless: each event's tag alone decides the action, and
//! the events of a tick are applied in arrival order, so the last
//! pause/play among them wins.

use vstd::prelude::*;

verus! {

/// An OS-reported transition of the application's foreground/background
/// state, observed once per tick.
#[derive(Clone, Copy, Debug, PartialEq, Eq, Structural)]
pub enum Lifecycle {
    Idle,
    WillSuspend,
    Suspended,
    WillResume,
    Running,
}

/// What one lifecycle event asks of the audio sink.
#[derive(Clone, Copy, Debug, PartialEq, Eq, Structural)]
pub enum AudioAction {
    /// Leave the sink as it is.
    Keep,
    /// Pause playback.
    Pause,
    /// Resume playback.
    Play,
}

/// The play/pause state of the audio sink, as this component sees it. The
/// engine owns the real sink; it mirrors `playing` onto it after each tick.
#[derive(Clone, Copy, Debug, PartialEq, Eq, Structural)]
pub struct SinkState {
    pub playing: bool,
}

/// The action a lifecycle event maps to: `Suspended` pauses, `Running`
/// resumes, the rest do nothing.
pub open spec fn spec_action_for(event: Lifecycle) -> AudioAction {
    match event {
        Lifecycle::Idle => AudioAction::Keep,
        Lifecycle::WillSuspend => AudioAction::Keep,
        Lifecycle::WillResume => AudioAction::Keep,
        Lifecycle::Suspended => AudioAction::Pause,
        Lifecycle::Running => AudioAction::Play,
    }
}

/// Whether the sink plays after `action` is applied to a sink in state
/// `playing`.
pub open spec fn apply_action(playing: bool, action: AudioAction) -> bool {
    match action {
        AudioAction::Keep => playing,
        AudioAction::Pause => false,
        AudioAction::Play => true,
    }
}

/// Whether the sink plays after the events of one tick, in arrival order,
/// starting from state `playing`.
pub open spec fn sink_after(playing: bool, events: Seq<Lifecycle>) -> bool
    decreases events.len(),
{
    if events.len() == 0 {
        playing
    } else {
        apply_action(sink_after(playing, events.drop_last()), spec_action_for(events.last()))
    }
}

/// The action one lifecycle event maps to.
pub fn action_for(event: Lifecycle) -> (action: AudioAction)
    ensures
        action == spec_action_for(event),
{
    match event {
        Lifecycle::Idle => AudioAction::Keep,
        Lifecycle::WillSuspend => AudioAction::Keep,
        Lifecycle::WillResume => AudioAction::Keep,
        Lifecycle::Suspended => AudioAction::Pause,
        Lifecycle::Running => AudioAction::Play,
    }
}

impl SinkState {
    /// A sink that has just started looping its track.
    pub fn initial() -> (sink: SinkState)
        ensures
            sink.playing,
    {
        SinkState { playing: true }
    }
}

/// One tick of the lifecycle reactor: applies the tick's events to the sink
/// in arrival order.
pub fn lifecycle_tick(sink: &mut SinkState, events: &Vec<Lifecycle>)
    ensures
        final(sink).playing == sink_after(old(sink).playing, events@),
{
    let mut i: usize = 0;
    while i < events.len()
        invariant
            i <= events.len(),
            sink.playing == sink_after(old(sink).playing, events@.take(i as int)),
        decreases events.len() - i,
    {
        let action = action_for(events[i]);
        match action {
            AudioAction::Keep => {},
            AudioAction::Pause => {
                sink.playing = false;
            },
            AudioAction::Play => {
                sink.playing = true;
            },
        }
        proof {
            assert(events@.take(i + 1 as int).drop_last() =~= events@.take(i as int));
            assert(events@.take(i + 1 as int).last() == events@[i as int]);
        }
        i = i + 1;
    }
    proof {
        assert(events@.take(events@.len() as int) =~= events@);
    }
}

/// One tick of the lifecycle reactor when the sink may not exist yet (the
/// audio asset can still be loading): with no sink the tick is a no-op.
pub fn lifecycle_tick_opt(sink: &mut Option<SinkState>, events: &Vec<Lifecycle>)
    ensures
        *old(sink) is None ==> *final(sink) is None,
        (*old(sink) matches Some(s) ==> *final(sink) matches Some(t) && t.playing == sink_after(
            s.playing,
            events@,
        )),
{
    match sink {
        Some(s) => lifecycle_tick(s, events),
        None => {},
    }
}

/// Law: within one tick the last pause/play wins. From any starting state,
/// `Suspended` then `Running` leaves the sink playing, and `Running` then
/// `Suspended` leaves it paused.
pub proof fn lemma_last_write_wins(playing: bool)
    ensures
        sink_after(playing, seq![Lifecycle::Suspended, Lifecycle::Running]),
        !sink_after(playing, seq![Lifecycle::Running, Lifecycle::Suspended]),
{
    let a = seq![Lifecycle::Suspended, Lifecycle::Running];
    let b = seq![Lifecycle::Running, Lifecycle::Suspended];
    assert(a.drop_last() =~= seq![Lifecycle::Suspended]);
    assert(b.drop_last() =~= seq![Lifecycle::Running]);
    assert(seq![Lifecycle::Suspended].drop_last() =~= Seq::<Lifecycle>::empty());
    assert(seq![Lifecycle::Running].drop_last() =~= Seq::<Lifecycle>::empty());
}

/// Law: a tick of `Suspended` is idempotent. Applying it twice (one event
/// per tick, two ticks in a row) ends in the same state as applying it once:
/// paused either way.
pub proof fn lemma_suspend_idempotent(playing: bool)
    ensures
        sink_after(sink_after(playing, seq![Lifecycle::Suspended]), seq![Lifecycle::Suspended])
            == sink_after(playing, seq![Lifecycle::Suspended]),
        !sink_after(playing, seq![Lifecycle::Suspended]),
{
    assert(seq![Lifecycle::Suspended].drop_last() =~= Seq::<Lifecycle>::empty());
}

} // verus!
