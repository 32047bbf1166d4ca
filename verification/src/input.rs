//! The input policy of a fly camera: what a window event asks for, how
//! the pointer is tracked, and in which order held keys move the camera.
//!
//! Coordinates, speeds and angles are of the caller's real type `T`. This
//! module carries them and never computes with them.

use vstd::prelude::*;

verus! {

/// A pointer position in window coordinates.
#[derive(Clone, Copy, Debug, PartialEq, Eq)]
pub struct MouseInputState<T> {
    pub x: T,
    pub y: T,
}

/// Pointer tracking and movement tuning of one session.
#[derive(Clone, Copy, Debug, PartialEq, Eq)]
pub struct InputState<T> {
    /// The last pointer position seen, none before the first event.
    pub mouse: Option<MouseInputState<T>>,
    /// Units per second.
    pub move_speed: T,
    /// Degrees per pixel of pointer motion.
    pub mouse_sensitivity: T,
}

/// What a pointer event asks of the camera.
#[derive(Clone, Copy, Debug, PartialEq, Eq)]
pub enum Look<T> {
    /// The first event of a session: it sets the baseline and the camera
    /// keeps its orientation.
    Hold,
    /// Turn by the motion from `from` to `to`: yaw grows with `to.x -
    /// from.x`, pitch with `from.y - to.y`, each times `sensitivity`.
    Turn { from: MouseInputState<T>, to: MouseInputState<T>, sensitivity: T },
}

/// The look that a pointer event at `(x, y)` asks for in a given state.
pub open spec fn look_for<T>(state: InputState<T>, x: T, y: T) -> Look<T> {
    match state.mouse {
        None => Look::Hold,
        Some(from) => Look::Turn {
            from,
            to: MouseInputState { x, y },
            sensitivity: state.mouse_sensitivity,
        },
    }
}

/// The state after a pointer event at `(x, y)`.
pub open spec fn moved_to<T>(state: InputState<T>, x: T, y: T) -> InputState<T> {
    InputState { mouse: Some(MouseInputState { x, y }), ..state }
}

impl<T: Copy> InputState<T> {
    /// A fresh session: no pointer position is known yet.
    pub fn new(move_speed: T, mouse_sensitivity: T) -> (state: Self)
        ensures
            state == (InputState { mouse: None, move_speed, mouse_sensitivity }),
    {
        InputState { mouse: None, move_speed, mouse_sensitivity }
    }

    /// Takes a pointer event: remembers the position and says how the
    /// camera is to turn.
    pub fn on_mouse_move(&mut self, x: T, y: T) -> (look: Look<T>)
        ensures
            look == look_for(*old(self), x, y),
            *final(self) == moved_to(*old(self), x, y),
    {
        let look = match self.mouse {
            None => Look::Hold,
            Some(from) => Look::Turn {
                from,
                to: MouseInputState { x, y },
                sensitivity: self.mouse_sensitivity,
            },
        };
        self.mouse = Some(MouseInputState { x, y });
        look
    }
}

/// The first pointer event of a session turns nothing and sets the
/// baseline.
pub proof fn lemma_first_move_holds<T>(move_speed: T, mouse_sensitivity: T, x: T, y: T)
    ensures
        look_for(InputState { mouse: None, move_speed, mouse_sensitivity }, x, y) == Look::<
            T,
        >::Hold,
        moved_to(InputState { mouse: None, move_speed, mouse_sensitivity }, x, y).mouse == Some(
            MouseInputState { x, y },
        ),
{
}

/// Every later pointer event turns by the motion since the event before it.
pub proof fn lemma_next_move_turns_from_last<T>(state: InputState<T>, x0: T, y0: T, x1: T, y1: T)
    ensures
        look_for(moved_to(state, x0, y0), x1, y1) == (Look::Turn {
            from: MouseInputState { x: x0, y: y0 },
            to: MouseInputState { x: x1, y: y1 },
            sensitivity: state.mouse_sensitivity,
        }),
{
}

/// A step of the camera through the scene.
#[derive(Clone, Copy, Debug, PartialEq, Eq)]
pub enum Move {
    Forward,
    Backward,
    Left,
    Right,
}

/// The line along which a step goes.
#[derive(Clone, Copy, Debug, PartialEq, Eq)]
pub enum Axis {
    /// The camera's front vector.
    Front,
    /// The unit vector along the cross product of front and up.
    Side,
}

/// The keys this policy knows.
#[derive(Clone, Copy, Debug, PartialEq, Eq)]
pub enum KeyCode {
    Escape,
    W,
    A,
    S,
    D,
    Other,
}

impl Move {
    /// The place of a step in the order in which steps are taken.
    pub open spec fn rank(self) -> int {
        match self {
            Move::Forward => 0,
            Move::Backward => 1,
            Move::Left => 2,
            Move::Right => 3,
        }
    }

    /// The axis of a step.
    pub open spec fn spec_axis(self) -> Axis {
        match self {
            Move::Forward | Move::Backward => Axis::Front,
            Move::Left | Move::Right => Axis::Side,
        }
    }

    /// The sense of a step along its axis: 1 with it, -1 against it.
    pub open spec fn spec_sign(self) -> i8 {
        match self {
            Move::Forward | Move::Right => 1i8,
            Move::Backward | Move::Left => -1i8,
        }
    }

    /// The key that asks for a step.
    pub open spec fn spec_key(self) -> KeyCode {
        match self {
            Move::Forward => KeyCode::W,
            Move::Backward => KeyCode::S,
            Move::Left => KeyCode::A,
            Move::Right => KeyCode::D,
        }
    }

    /// The axis of a step: forward and backward go along the front,
    /// left and right along the side.
    pub fn axis(self) -> (axis: Axis)
        ensures
            axis == self.spec_axis(),
    {
        match self {
            Move::Forward | Move::Backward => Axis::Front,
            Move::Left | Move::Right => Axis::Side,
        }
    }

    /// The sense of a step: forward and right go with their axis,
    /// backward and left against it.
    pub fn sign(self) -> (sign: i8)
        ensures
            sign == self.spec_sign(),
    {
        match self {
            Move::Forward | Move::Right => 1,
            Move::Backward | Move::Left => -1,
        }
    }

    /// The key that asks for a step.
    pub fn key(self) -> (key: KeyCode)
        ensures
            key == self.spec_key(),
    {
        match self {
            Move::Forward => KeyCode::W,
            Move::Backward => KeyCode::S,
            Move::Left => KeyCode::A,
            Move::Right => KeyCode::D,
        }
    }
}

/// Which steps are asked for at one tick.
#[derive(Clone, Copy, Debug, PartialEq, Eq)]
pub struct PressedKeys {
    pub forward: bool,
    pub backward: bool,
    pub left: bool,
    pub right: bool,
}

impl PressedKeys {
    /// Whether a step is asked for.
    pub open spec fn holds(self, step: Move) -> bool {
        match step {
            Move::Forward => self.forward,
            Move::Backward => self.backward,
            Move::Left => self.left,
            Move::Right => self.right,
        }
    }
}

/// One step if it is asked for, else none.
pub open spec fn step_if(asked: bool, step: Move) -> Seq<Move> {
    if asked {
        seq![step]
    } else {
        Seq::empty()
    }
}

/// The steps of one tick in the order they are taken: forward, backward,
/// left, right.
pub open spec fn steps_of(keys: PressedKeys) -> Seq<Move> {
    step_if(keys.forward, Move::Forward) + step_if(keys.backward, Move::Backward) + step_if(
        keys.left,
        Move::Left,
    ) + step_if(keys.right, Move::Right)
}

/// The steps of a tick are the steps asked for, each once, in the order
/// forward, backward, left, right.
pub proof fn lemma_steps_are_pressed_in_order(keys: PressedKeys)
    ensures
        forall|step: Move| steps_of(keys).contains(step) <==> keys.holds(step),
        forall|i: int, j: int|
            0 <= i < j < steps_of(keys).len() ==> steps_of(keys)[i].rank() < steps_of(
                keys,
            )[j].rank(),
{
    let steps = steps_of(keys);
    assert forall|step: Move| keys.holds(step) implies steps.contains(step) by {
        let before: int = match step {
            Move::Forward => 0,
            Move::Backward => step_if(keys.forward, Move::Forward).len() as int,
            Move::Left => (step_if(keys.forward, Move::Forward) + step_if(
                keys.backward,
                Move::Backward,
            )).len() as int,
            Move::Right => (step_if(keys.forward, Move::Forward) + step_if(
                keys.backward,
                Move::Backward,
            ) + step_if(keys.left, Move::Left)).len() as int,
        };
        assert(steps[before] == step);
    }
}

/// The steps to take at one tick, in order. Each is taken from where the
/// one before it left the camera.
pub fn process_inputs(keys: PressedKeys) -> (steps: Vec<Move>)
    ensures
        steps@ == steps_of(keys),
{
    let mut steps: Vec<Move> = Vec::new();
    if keys.forward {
        steps.push(Move::Forward);
    }
    if keys.backward {
        steps.push(Move::Backward);
    }
    if keys.left {
        steps.push(Move::Left);
    }
    if keys.right {
        steps.push(Move::Right);
    }
    assert(steps@ =~= steps_of(keys));
    steps
}

/// An event of the window, as far as this policy reads it.
#[derive(Clone, Copy, Debug, PartialEq, Eq)]
pub enum WindowInput<T> {
    /// The framebuffer was resized to this width and height.
    FramebufferSize(i32, i32),
    /// A key was pressed, released or repeated.
    Key(KeyCode),
    /// The pointer moved to this position.
    CursorPos(T, T),
    /// Anything else.
    Other,
}

/// What an event asks the caller to do.
#[derive(Clone, Copy, Debug, PartialEq, Eq)]
pub enum Reaction<T> {
    /// Set the viewport to this rectangle.
    Viewport { x: i32, y: i32, width: i32, height: i32 },
    /// Close the window.
    Close,
    /// Turn the camera, or hold it.
    Look(Look<T>),
    /// Nothing.
    Ignore,
}

/// The reaction to one event in a given state.
pub open spec fn reaction_to<T>(state: InputState<T>, event: WindowInput<T>) -> Reaction<T> {
    match event {
        WindowInput::FramebufferSize(width, height) => Reaction::Viewport {
            x: 0,
            y: 0,
            width,
            height,
        },
        WindowInput::Key(KeyCode::Escape) => Reaction::Close,
        WindowInput::CursorPos(x, y) => Reaction::Look(look_for(state, x, y)),
        _ => Reaction::Ignore,
    }
}

/// The state after one event.
pub open spec fn state_after<T>(state: InputState<T>, event: WindowInput<T>) -> InputState<T> {
    match event {
        WindowInput::CursorPos(x, y) => moved_to(state, x, y),
        _ => state,
    }
}

/// The reactions to a queue of events, in order.
pub open spec fn reactions_to<T>(state: InputState<T>, events: Seq<WindowInput<T>>) -> Seq<
    Reaction<T>,
>
    decreases events.len(),
{
    if events.len() == 0 {
        Seq::empty()
    } else {
        seq![reaction_to(state, events[0])] + reactions_to(
            state_after(state, events[0]),
            events.skip(1),
        )
    }
}

/// The state after a queue of events.
pub open spec fn state_after_all<T>(state: InputState<T>, events: Seq<WindowInput<T>>) -> InputState<
    T,
>
    decreases events.len(),
{
    if events.len() == 0 {
        state
    } else {
        state_after_all(state_after(state, events[0]), events.skip(1))
    }
}

/// Takes one event of the window: a resize sets the viewport to the whole
/// framebuffer, the escape key closes the window, a pointer move turns
/// the camera, and nothing else has any effect.
pub fn process_event<T: Copy>(event: WindowInput<T>, input_state: &mut InputState<T>) -> (reaction:
    Reaction<T>)
    ensures
        reaction == reaction_to(*old(input_state), event),
        *final(input_state) == state_after(*old(input_state), event),
{
    match event {
        WindowInput::FramebufferSize(width, height) => Reaction::Viewport {
            x: 0,
            y: 0,
            width,
            height,
        },
        WindowInput::Key(KeyCode::Escape) => Reaction::Close,
        WindowInput::CursorPos(x, y) => Reaction::Look(input_state.on_mouse_move(x, y)),
        _ => Reaction::Ignore,
    }
}

/// Takes the events that queued up since the last frame, oldest first:
/// the reactions to them in the same order.
pub fn process_events<T: Copy>(events: &Vec<WindowInput<T>>, input_state: &mut InputState<T>) -> (reactions:
    Vec<Reaction<T>>)
    ensures
        reactions@ == reactions_to(*old(input_state), events@),
        *final(input_state) == state_after_all(*old(input_state), events@),
{
    let mut reactions: Vec<Reaction<T>> = Vec::new();
    let mut i: usize = 0;
    assert(events@.skip(0) =~= events@);
    while i < events.len()
        invariant
            0 <= i <= events.len(),
            reactions@ + reactions_to(*input_state, events@.skip(i as int)) == reactions_to(
                *old(input_state),
                events@,
            ),
            state_after_all(*input_state, events@.skip(i as int)) == state_after_all(
                *old(input_state),
                events@,
            ),
        decreases events.len() - i,
    {
        let ghost before = *input_state;
        let ghost rest = events@.skip(i as int);
        let reaction = process_event(events[i], input_state);
        assert(rest[0] == events@[i as int]);
        assert(rest.skip(1) =~= events@.skip(i + 1));
        assert(reactions@.push(reaction) + reactions_to(*input_state, rest.skip(1)) =~= reactions@
            + reactions_to(before, rest));
        reactions.push(reaction);
        i += 1;
    }
    assert(events@.skip(i as int) =~= Seq::empty());
    assert(reactions@ + Seq::empty() =~= reactions@);
    reactions
}

} // verus!
