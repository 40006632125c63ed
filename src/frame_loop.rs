use vstd::prelude::*;

verus! {

/// A key as far as the frame loop cares.
#[derive(Clone, Copy, Debug, PartialEq, Eq, Structural)]
pub enum Key {
    Escape,
    Other,
}

/// One pending input event, as handed over by the window system.
#[derive(Clone, Copy, Debug, PartialEq, Eq, Structural)]
pub enum InputEvent {
    /// The window system asks the program to quit (window closed).
    Quit,
    KeyDown(Key),
    Other,
}

/// The state of the frame loop. `Running` is initial, `Terminated` absorbing.
#[derive(Clone, Copy, Debug, PartialEq, Eq, Structural)]
pub enum LoopState {
    Running,
    Terminated,
}

/// What the loop does after draining its events.
#[derive(Clone, Copy, Debug, PartialEq, Eq, Structural)]
pub enum FrameAction {
    /// Clear, fill the texture, composite it and present.
    Render,
    /// Leave the loop; no further fill or present.
    Exit,
}

/// The event asks the loop to stop: a quit request or the escape key.
pub open spec fn is_quit(e: InputEvent) -> bool {
    e == InputEvent::Quit || e == InputEvent::KeyDown(Key::Escape)
}

pub open spec fn has_quit(events: Seq<InputEvent>) -> bool {
    exists|i: int| 0 <= i < events.len() && #[trigger] is_quit(events[i])
}

/// The state after one drain of the pending events.
pub open spec fn drained_state(state: LoopState, events: Seq<InputEvent>) -> LoopState {
    if state == LoopState::Running && !has_quit(events) {
        LoopState::Running
    } else {
        LoopState::Terminated
    }
}

pub open spec fn action_for(state: LoopState) -> FrameAction {
    match state {
        LoopState::Running => FrameAction::Render,
        LoopState::Terminated => FrameAction::Exit,
    }
}

/// One iteration: drain the events, then decide whether to draw a frame.
pub open spec fn step_spec(state: LoopState, events: Seq<InputEvent>) -> (LoopState, FrameAction) {
    let s = drained_state(state, events);
    (s, action_for(s))
}

/// Frames drawn over a run in which each iteration finds the next batch of
/// pending events.
pub open spec fn frames_rendered(state: LoopState, batches: Seq<Seq<InputEvent>>) -> nat
    decreases batches.len(),
{
    if batches.len() == 0 {
        0
    } else {
        let (s, a) = step_spec(state, batches[0]);
        (if a == FrameAction::Render {
            1nat
        } else {
            0nat
        }) + frames_rendered(s, batches.drop_first())
    }
}

/// Tells whether an event asks the loop to stop.
pub fn is_quit_event(e: InputEvent) -> (r: bool)
    ensures
        r == is_quit(e),
{
    match e {
        InputEvent::Quit => true,
        InputEvent::KeyDown(Key::Escape) => true,
        _ => false,
    }
}

/// Drains the pending events. Returns the new state and how many events were
/// read: a running loop reads up to and including the first quit event and
/// discards the rest; a terminated loop reads none.
pub fn drain_events(state: LoopState, events: &Vec<InputEvent>) -> (r: (LoopState, usize))
    ensures
        r.0 == drained_state(state, events@),
        state == LoopState::Terminated ==> r.1 == 0,
        state == LoopState::Running && !has_quit(events@) ==> r.1 == events@.len(),
        state == LoopState::Running && has_quit(events@) ==> {
            &&& 0 < r.1 <= events@.len()
            &&& is_quit(events@[r.1 - 1])
            &&& forall|j: int| 0 <= j < r.1 - 1 ==> !#[trigger] is_quit(events@[j])
        },
{
    if state == LoopState::Terminated {
        return (LoopState::Terminated, 0);
    }
    let mut i: usize = 0;
    while i < events.len()
        invariant
            state == LoopState::Running,
            i <= events@.len(),
            forall|j: int| 0 <= j < i ==> !#[trigger] is_quit(events@[j]),
        decreases events@.len() - i,
    {
        if is_quit_event(events[i]) {
            return (LoopState::Terminated, i + 1);
        }
        i = i + 1;
    }
    assert(!has_quit(events@));
    (LoopState::Running, events.len())
}

/// Decides what the loop does in a state: draw a frame while running, leave
/// once terminated.
pub fn frame_action(state: LoopState) -> (r: FrameAction)
    ensures
        r == action_for(state),
{
    match state {
        LoopState::Running => FrameAction::Render,
        LoopState::Terminated => FrameAction::Exit,
    }
}

/// One iteration of the frame loop over the events pending at its start.
pub fn step(state: LoopState, events: &Vec<InputEvent>) -> (r: (LoopState, FrameAction))
    ensures
        r == step_spec(state, events@),
{
    let (s, _read) = drain_events(state, events);
    (s, frame_action(s))
}

/// Once terminated, the loop draws no frame, whatever events come.
pub proof fn lemma_terminated_renders_nothing(batches: Seq<Seq<InputEvent>>)
    ensures
        frames_rendered(LoopState::Terminated, batches) == 0,
    decreases batches.len(),
{
    if batches.len() > 0 {
        lemma_terminated_renders_nothing(batches.drop_first());
    }
}

/// A quit event among the events pending at an iteration of a running loop
/// terminates it in that iteration, and no frame is drawn from then on.
pub proof fn lemma_quit_terminates(batches: Seq<Seq<InputEvent>>)
    requires
        batches.len() > 0,
        has_quit(batches[0]),
    ensures
        step_spec(LoopState::Running, batches[0]) == (LoopState::Terminated, FrameAction::Exit),
        frames_rendered(LoopState::Running, batches) == 0,
{
    lemma_terminated_renders_nothing(batches.drop_first());
}

} // verus!
