use d3dx12::input::light_direction;
use d3dx12::input::CameraStep;
use d3dx12::input::InputState;
use d3dx12::input::VK_DOWN;
use d3dx12::input::VK_LEFT;
use d3dx12::input::VK_RIGHT;
use d3dx12::input::VK_SPACE;
use d3dx12::input::VK_UP;
use windows::Win32::UI::Input::KeyboardAndMouse;

const AT_REST: InputState = InputState {
    right_arrow_pressed: false,
    left_arrow_pressed: false,
    up_arrow_pressed: false,
    down_arrow_pressed: false,
    animate: false,
};

#[test]
fn key_codes_are_those_of_the_api() {
    assert_eq!(VK_SPACE, KeyboardAndMouse::VK_SPACE.0);
    assert_eq!(VK_LEFT, KeyboardAndMouse::VK_LEFT.0);
    assert_eq!(VK_UP, KeyboardAndMouse::VK_UP.0);
    assert_eq!(VK_RIGHT, KeyboardAndMouse::VK_RIGHT.0);
    assert_eq!(VK_DOWN, KeyboardAndMouse::VK_DOWN.0);
}

#[test]
fn at_first_no_key_is_held() {
    assert_eq!(InputState::default(), AT_REST);
    assert!(InputState::default().camera_steps().is_empty());
}

#[test]
fn an_arrow_key_is_held_from_key_down_to_key_up() {
    let mut state = InputState::default();
    state.on_key_down(VK_LEFT);
    assert_eq!(
        state,
        InputState {
            left_arrow_pressed: true,
            ..AT_REST
        }
    );
    state.on_key_down(VK_UP);
    assert_eq!(
        state,
        InputState {
            left_arrow_pressed: true,
            up_arrow_pressed: true,
            ..AT_REST
        }
    );
    state.on_key_up(VK_LEFT);
    assert_eq!(
        state,
        InputState {
            up_arrow_pressed: true,
            ..AT_REST
        }
    );
    state.on_key_down(VK_RIGHT);
    state.on_key_down(VK_DOWN);
    assert_eq!(
        state,
        InputState {
            right_arrow_pressed: true,
            up_arrow_pressed: true,
            down_arrow_pressed: true,
            ..AT_REST
        }
    );
    state.on_key_up(VK_RIGHT);
    state.on_key_up(VK_UP);
    state.on_key_up(VK_DOWN);
    assert_eq!(state, AT_REST);
}

#[test]
fn the_space_bar_starts_and_stops_the_lights_when_it_comes_up() {
    let mut state = InputState::default();
    state.on_key_down(VK_SPACE);
    assert_eq!(state, AT_REST);
    state.on_key_up(VK_SPACE);
    assert!(state.animate);
    state.on_key_down(VK_SPACE);
    assert!(state.animate);
    state.on_key_up(VK_SPACE);
    assert_eq!(state, AT_REST);
}

#[test]
fn other_keys_change_nothing() {
    let held = InputState {
        left_arrow_pressed: true,
        animate: true,
        ..AT_REST
    };
    for key in [0u16, 13, 31, 33, 36, 41, 65, 0x125, u16::MAX] {
        let mut state = held;
        state.on_key_down(key);
        assert_eq!(state, held);
        state.on_key_up(key);
        assert_eq!(state, held);
    }
}

#[test]
fn key_down_and_key_up_of_an_arrow_leave_it_released() {
    for key in [VK_LEFT, VK_RIGHT, VK_UP, VK_DOWN] {
        for held_before in [false, true] {
            let mut state = AT_REST;
            if held_before {
                state.on_key_down(key);
            }
            let mut released = state;
            released.on_key_up(key);
            state.on_key_down(key);
            state.on_key_up(key);
            assert_eq!(state, released);
            assert_eq!(state, AT_REST);
        }
    }
}

#[test]
fn the_camera_turns_once_for_each_arrow_held() {
    let mut state = InputState::default();
    state.on_key_down(VK_DOWN);
    assert_eq!(state.camera_steps(), vec![CameraStep::PitchDown]);
    state.on_key_down(VK_LEFT);
    assert_eq!(
        state.camera_steps(),
        vec![CameraStep::YawLeft, CameraStep::PitchDown]
    );
    state.on_key_down(VK_UP);
    state.on_key_down(VK_RIGHT);
    assert_eq!(
        state.camera_steps(),
        vec![
            CameraStep::YawLeft,
            CameraStep::YawRight,
            CameraStep::PitchUp,
            CameraStep::PitchDown
        ]
    );
    state.on_key_up(VK_LEFT);
    state.on_key_up(VK_DOWN);
    assert_eq!(
        state.camera_steps(),
        vec![CameraStep::YawRight, CameraStep::PitchUp]
    );
}

#[test]
fn lights_go_round_in_turn_one_way_and_the_other() {
    assert_eq!(light_direction(0), 1);
    assert_eq!(light_direction(1), -1);
    assert_eq!(light_direction(2), 1);
    assert_eq!(light_direction(usize::MAX), -1);
    for index in 0..3usize {
        assert_eq!(
            light_direction(index) as f32,
            (-1.0f32).powf(index as f32)
        );
    }
}
