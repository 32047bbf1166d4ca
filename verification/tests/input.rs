use ogl::input::{
    process_event, process_events, process_inputs, Axis, InputState, KeyCode, Look, Move,
    MouseInputState, PressedKeys, Reaction, WindowInput,
};

fn keys(forward: bool, backward: bool, left: bool, right: bool) -> PressedKeys {
    PressedKeys { forward, backward, left, right }
}

fn cross(a: [f32; 3], b: [f32; 3]) -> [f32; 3] {
    [a[1] * b[2] - a[2] * b[1], a[2] * b[0] - a[0] * b[2], a[0] * b[1] - a[1] * b[0]]
}

fn normalize(v: [f32; 3]) -> [f32; 3] {
    let n = (v[0] * v[0] + v[1] * v[1] + v[2] * v[2]).sqrt();
    [v[0] / n, v[1] / n, v[2] / n]
}

fn walk(position: [f32; 3], front: [f32; 3], up: [f32; 3], steps: &[Move], speed: f32) -> [f32; 3] {
    let mut position = position;
    for step in steps {
        let along = match step.axis() {
            Axis::Front => front,
            Axis::Side => normalize(cross(front, up)),
        };
        let sign = f32::from(step.sign());
        for i in 0..3 {
            position[i] += sign * speed * along[i];
        }
    }
    position
}

#[test]
fn fresh_state_knows_no_pointer() {
    let state = InputState::new(2.5_f32, 0.1_f32);
    assert_eq!(state, InputState { mouse: None, move_speed: 2.5, mouse_sensitivity: 0.1 });
}

#[test]
fn first_mouse_move_holds_the_camera_and_sets_the_baseline() {
    let mut state = InputState::new(2.5_f32, 0.1_f32);
    let look = state.on_mouse_move(400.0, 300.0);
    assert_eq!(look, Look::Hold);
    assert_eq!(state.mouse, Some(MouseInputState { x: 400.0, y: 300.0 }));
    assert_eq!(state.move_speed, 2.5);
    assert_eq!(state.mouse_sensitivity, 0.1);
}

#[test]
fn later_mouse_move_turns_from_the_last_position() {
    let mut state = InputState::new(2.5_f32, 0.1_f32);
    state.on_mouse_move(400.0, 300.0);
    let look = state.on_mouse_move(410.0, 280.0);
    assert_eq!(
        look,
        Look::Turn {
            from: MouseInputState { x: 400.0, y: 300.0 },
            to: MouseInputState { x: 410.0, y: 280.0 },
            sensitivity: 0.1,
        }
    );
    assert_eq!(state.mouse, Some(MouseInputState { x: 410.0, y: 280.0 }));
    let look = state.on_mouse_move(410.0, 280.0);
    assert_eq!(
        look,
        Look::Turn {
            from: MouseInputState { x: 410.0, y: 280.0 },
            to: MouseInputState { x: 410.0, y: 280.0 },
            sensitivity: 0.1,
        }
    );
}

#[test]
fn steps_have_their_axis_sign_and_key() {
    assert_eq!((Move::Forward.axis(), Move::Forward.sign()), (Axis::Front, 1));
    assert_eq!((Move::Backward.axis(), Move::Backward.sign()), (Axis::Front, -1));
    assert_eq!((Move::Left.axis(), Move::Left.sign()), (Axis::Side, -1));
    assert_eq!((Move::Right.axis(), Move::Right.sign()), (Axis::Side, 1));
    assert_eq!(Move::Forward.key(), KeyCode::W);
    assert_eq!(Move::Backward.key(), KeyCode::S);
    assert_eq!(Move::Left.key(), KeyCode::A);
    assert_eq!(Move::Right.key(), KeyCode::D);
}

#[test]
fn no_key_no_step() {
    assert_eq!(process_inputs(keys(false, false, false, false)), Vec::<Move>::new());
}

#[test]
fn steps_come_in_fixed_order() {
    assert_eq!(
        process_inputs(keys(true, true, true, true)),
        vec![Move::Forward, Move::Backward, Move::Left, Move::Right]
    );
    assert_eq!(process_inputs(keys(false, true, false, true)), vec![Move::Backward, Move::Right]);
    assert_eq!(process_inputs(keys(true, false, true, false)), vec![Move::Forward, Move::Left]);
    assert_eq!(process_inputs(keys(false, false, true, false)), vec![Move::Left]);
}

#[test]
fn forward_for_one_second_moves_along_front() {
    let steps = process_inputs(keys(true, false, false, false));
    let position =
        walk([0.0, 0.0, 0.0], [0.0, 0.0, -1.0], [0.0, 1.0, 0.0], &steps, 1.0_f32 * 2.5_f32);
    assert_eq!(position, [0.0, 0.0, -2.5]);
}

#[test]
fn right_moves_along_front_cross_up() {
    let steps = process_inputs(keys(false, false, false, true));
    let position =
        walk([0.0, 0.0, 0.0], [0.0, 0.0, -1.0], [0.0, 1.0, 0.0], &steps, 1.0_f32 * 2.5_f32);
    assert_eq!(position, [2.5, 0.0, 0.0]);
    let steps = process_inputs(keys(false, false, true, false));
    let position =
        walk([0.0, 0.0, 0.0], [0.0, 0.0, -1.0], [0.0, 1.0, 0.0], &steps, 1.0_f32 * 2.5_f32);
    assert_eq!(position, [-2.5, 0.0, 0.0]);
}

#[test]
fn opposite_keys_compose_additively() {
    let steps = process_inputs(keys(true, true, false, false));
    let position = walk([1.0, 2.0, 3.0], [0.0, 0.0, -1.0], [0.0, 1.0, 0.0], &steps, 0.5);
    assert_eq!(position, [1.0, 2.0, 3.0]);
}

#[test]
fn resize_sets_the_viewport() {
    let mut state = InputState::new(2.5_f32, 0.1_f32);
    let reaction = process_event(WindowInput::FramebufferSize(1024, 768), &mut state);
    assert_eq!(reaction, Reaction::Viewport { x: 0, y: 0, width: 1024, height: 768 });
    assert_eq!(state.mouse, None);
}

#[test]
fn escape_closes_and_other_keys_do_nothing() {
    let mut state = InputState::new(2.5_f32, 0.1_f32);
    assert_eq!(process_event(WindowInput::Key(KeyCode::Escape), &mut state), Reaction::Close);
    assert_eq!(process_event(WindowInput::Key(KeyCode::W), &mut state), Reaction::Ignore);
    assert_eq!(process_event(WindowInput::Key(KeyCode::Other), &mut state), Reaction::Ignore);
    assert_eq!(process_event(WindowInput::Other, &mut state), Reaction::Ignore);
    assert_eq!(state, InputState::new(2.5_f32, 0.1_f32));
}

#[test]
fn cursor_event_is_a_mouse_move() {
    let mut state = InputState::new(2.5_f32, 0.1_f32);
    assert_eq!(
        process_event(WindowInput::CursorPos(1.0, 2.0), &mut state),
        Reaction::Look(Look::Hold)
    );
    assert_eq!(state.mouse, Some(MouseInputState { x: 1.0, y: 2.0 }));
}

#[test]
fn queued_events_are_answered_in_order() {
    let mut state = InputState::new(2.5_f32, 0.1_f32);
    let events = vec![
        WindowInput::CursorPos(1.0, 2.0),
        WindowInput::FramebufferSize(640, 480),
        WindowInput::CursorPos(4.0, 6.0),
        WindowInput::Other,
        WindowInput::Key(KeyCode::Escape),
        WindowInput::CursorPos(5.0, 5.0),
    ];
    let reactions = process_events(&events, &mut state);
    assert_eq!(
        reactions,
        vec![
            Reaction::Look(Look::Hold),
            Reaction::Viewport { x: 0, y: 0, width: 640, height: 480 },
            Reaction::Look(Look::Turn {
                from: MouseInputState { x: 1.0, y: 2.0 },
                to: MouseInputState { x: 4.0, y: 6.0 },
                sensitivity: 0.1,
            }),
            Reaction::Ignore,
            Reaction::Close,
            Reaction::Look(Look::Turn {
                from: MouseInputState { x: 4.0, y: 6.0 },
                to: MouseInputState { x: 5.0, y: 5.0 },
                sensitivity: 0.1,
            }),
        ]
    );
    assert_eq!(state.mouse, Some(MouseInputState { x: 5.0, y: 5.0 }));
    assert_eq!(process_events(&Vec::new(), &mut state), Vec::<Reaction<f32>>::new());
}
