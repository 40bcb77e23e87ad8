use switch::{decrement_menu_state, get_mask, increment_menu_state, menu_label, Button, Command, MenuState, MenuStateMachine};

const ALL: [MenuState; 3] = [MenuState::Main, MenuState::Lamp1, MenuState::Lamp2];

#[test]
fn mask_table() {
    assert_eq!(get_mask(&MenuState::Main), 0xFFFF);
    assert_eq!(get_mask(&MenuState::Lamp1), 0x000F);
    assert_eq!(get_mask(&MenuState::Lamp2), 0x0070);
    assert_eq!(get_mask(&MenuState::Lamp1) & get_mask(&MenuState::Lamp2), 0);
    assert_eq!(get_mask(&MenuState::Lamp1) & get_mask(&MenuState::Main), 0x000F);
    assert_eq!(get_mask(&MenuState::Lamp2) & get_mask(&MenuState::Main), 0x0070);
}

#[test]
fn increment_and_decrement_cycle() {
    let mut s = MenuState::Main;
    increment_menu_state(&mut s);
    assert_eq!(s, MenuState::Lamp1);
    increment_menu_state(&mut s);
    assert_eq!(s, MenuState::Lamp2);
    increment_menu_state(&mut s);
    assert_eq!(s, MenuState::Main);
    decrement_menu_state(&mut s);
    assert_eq!(s, MenuState::Lamp2);
    decrement_menu_state(&mut s);
    assert_eq!(s, MenuState::Lamp1);
    decrement_menu_state(&mut s);
    assert_eq!(s, MenuState::Main);
}

#[test]
fn press_left_three_times_is_identity() {
    for start in ALL {
        let mut m = MenuStateMachine { state: start, last_activity: 0 };
        for t in 1..=3u64 {
            assert_eq!(m.handle(Button::PressLeft, t), None);
        }
        assert_eq!(m.state, start);
    }
}

#[test]
fn press_left_then_right_is_identity() {
    for start in ALL {
        let mut m = MenuStateMachine { state: start, last_activity: 0 };
        assert_eq!(m.handle(Button::PressLeft, 1), None);
        assert_eq!(m.handle(Button::PressRight, 2), None);
        assert_eq!(m.state, start);
    }
}

#[test]
fn rotate_and_slide_emit_deltas_for_state_mask() {
    let mut m = MenuStateMachine { state: MenuState::Lamp2, last_activity: 0 };
    let c = |brightness, gamma, position| Some(Command { mask: 0x0070, brightness, gamma, position });
    assert_eq!(m.handle(Button::RotateRight, 10), c(5, 0, 0));
    assert_eq!(m.handle(Button::RotateLeft, 11), c(-5, 0, 0));
    assert_eq!(m.handle(Button::SlideUp, 12), c(0, 5, 0));
    assert_eq!(m.handle(Button::SlideDown, 13), c(0, -5, 0));
    assert_eq!(m.handle(Button::SlideLeft, 14), c(0, 0, -5));
    assert_eq!(m.handle(Button::SlideRight, 15), c(0, 0, 5));
    assert_eq!(m.state, MenuState::Lamp2);
    assert_eq!(m.last_activity, 15);
}

#[test]
fn press_top_selects_then_turns_off() {
    let mut m = MenuStateMachine::new();
    assert_eq!(m.handle(Button::PressTop, 100), None);
    assert_eq!(m.state, MenuState::Lamp1);
    assert_eq!(m.last_activity, 100);
    assert_eq!(
        m.handle(Button::PressTop, 200),
        Some(Command { mask: 0x000F, brightness: -127, gamma: 0, position: 0 })
    );
    assert_eq!(m.state, MenuState::Lamp1);
}

#[test]
fn press_bottom_selects_then_turns_off() {
    let mut m = MenuStateMachine { state: MenuState::Lamp1, last_activity: 0 };
    assert_eq!(m.handle(Button::PressBottom, 100), None);
    assert_eq!(m.state, MenuState::Lamp2);
    assert_eq!(
        m.handle(Button::PressBottom, 200),
        Some(Command { mask: 0x0070, brightness: -127, gamma: 0, position: 0 })
    );
    assert_eq!(m.state, MenuState::Lamp2);
}

#[test]
fn timeout_returns_to_main() {
    let mut m = MenuStateMachine { state: MenuState::Lamp1, last_activity: 1000 };
    m.check_timeout(5999);
    assert_eq!(m.state, MenuState::Lamp1);
    m.check_timeout(6000);
    assert_eq!(m.state, MenuState::Main);
    assert_eq!(m.last_activity, 1000);
}

#[test]
fn labels_for_display() {
    assert_eq!(menu_label(MenuState::Main), "ALL");
    assert_eq!(menu_label(MenuState::Lamp1), "1");
    assert_eq!(menu_label(MenuState::Lamp2), "2");
}
