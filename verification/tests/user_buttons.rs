use weather_station::user_buttons::{
    button_event, BtnId, BtnState, UserBtnState, UserButton, UserButtons,
};

#[test]
fn press_is_reported_at_the_fourth_poll() {
    let mut button = UserButton::new(BtnId::Btn2);
    assert_eq!(button.button_status(true), (BtnId::Btn2, BtnState::Held));
    assert_eq!(button.button_status(true), (BtnId::Btn2, BtnState::Held));
    assert_eq!(button.button_status(true), (BtnId::Btn2, BtnState::Held));
    assert_eq!(button.button_status(true), (BtnId::Btn2, BtnState::Pressed));
    assert_eq!(button.button_status(true), (BtnId::Btn2, BtnState::Held));
}

#[test]
fn release_is_reported_after_four_released_polls() {
    let mut button = UserButton::new(BtnId::Btn1);
    for _ in 0..4 {
        button.button_status(true);
    }
    assert_eq!(button.button_status(false), (BtnId::Btn1, BtnState::Held));
    assert_eq!(button.button_status(false), (BtnId::Btn1, BtnState::Held));
    assert_eq!(button.button_status(false), (BtnId::Btn1, BtnState::Held));
    assert_eq!(button.button_status(false), (BtnId::Btn1, BtnState::Released));
    assert_eq!(button.button_status(false), (BtnId::Btn1, BtnState::Held));
}

#[test]
fn button_at_rest_stays_silent() {
    let mut button = UserButton::new(BtnId::Btn3);
    for _ in 0..10 {
        assert_eq!(button.button_status(false), (BtnId::Btn3, BtnState::Held));
    }
}

#[test]
fn bounce_restarts_the_count() {
    let mut button = UserButton::new(BtnId::Btn1);
    assert_eq!(button.button_status(true).1, BtnState::Held);
    assert_eq!(button.button_status(true).1, BtnState::Held);
    assert_eq!(button.button_status(false).1, BtnState::Held);
    assert_eq!(button.button_status(true).1, BtnState::Held);
    assert_eq!(button.button_status(true).1, BtnState::Held);
    assert_eq!(button.button_status(true).1, BtnState::Held);
    assert_eq!(button.button_status(true).1, BtnState::Pressed);
}

#[test]
fn bounce_back_to_rest_reports_a_release() {
    let mut button = UserButton::new(BtnId::Btn1);
    assert_eq!(button.button_status(true).1, BtnState::Held);
    assert_eq!(button.button_status(false).1, BtnState::Held);
    assert_eq!(button.button_status(false).1, BtnState::Held);
    assert_eq!(button.button_status(false).1, BtnState::Held);
    assert_eq!(button.button_status(false).1, BtnState::Released);
}

#[test]
fn events_by_button_and_state() {
    assert_eq!(button_event(BtnId::Btn1, BtnState::Pressed), Some(UserBtnState::Btn1Pressed));
    assert_eq!(button_event(BtnId::Btn2, BtnState::Pressed), Some(UserBtnState::Btn2Pressed));
    assert_eq!(button_event(BtnId::Btn3, BtnState::Pressed), Some(UserBtnState::Btn3Pressed));
    assert_eq!(button_event(BtnId::Btn1, BtnState::Released), Some(UserBtnState::Btn1Released));
    assert_eq!(button_event(BtnId::Btn2, BtnState::Released), Some(UserBtnState::Btn2Released));
    assert_eq!(button_event(BtnId::Btn3, BtnState::Released), Some(UserBtnState::Btn3Released));
    assert_eq!(button_event(BtnId::Btn1, BtnState::Held), None);
    assert_eq!(button_event(BtnId::Btn2, BtnState::Held), None);
    assert_eq!(button_event(BtnId::Btn3, BtnState::Held), None);
}

#[test]
fn poll_reports_buttons_in_order() {
    let mut buttons = UserButtons::new();
    for _ in 0..3 {
        assert!(buttons.poll(true, false, true).is_empty());
    }
    assert_eq!(
        buttons.poll(true, false, true),
        vec![UserBtnState::Btn1Pressed, UserBtnState::Btn3Pressed]
    );
    assert!(buttons.poll(true, false, true).is_empty());
    for _ in 0..3 {
        assert!(buttons.poll(false, true, true).is_empty());
    }
    assert_eq!(
        buttons.poll(false, true, true),
        vec![UserBtnState::Btn1Released, UserBtnState::Btn2Pressed]
    );
}

#[test]
fn button_events_are_ordered_as_declared() {
    assert!(UserBtnState::Btn1Pressed < UserBtnState::Btn1Released);
    assert!(UserBtnState::Btn1Held < UserBtnState::Btn2Pressed);
    assert!(UserBtnState::Btn3Released < UserBtnState::Btn3Held);
}

fn model_step(state: u8, pressed: bool) -> (u8, BtnState) {
    if (state == 0x0f && pressed) || (state == 0 && !pressed) {
        return (state, BtnState::Held);
    }
    let next = ((state << 1) | (pressed as u8)) & 0x0f;
    let status = if next == 0x0f {
        BtnState::Pressed
    } else if next == 0 {
        BtnState::Released
    } else {
        BtnState::Held
    };
    (next, status)
}

#[test]
fn every_sequence_of_twelve_levels_follows_the_shift_register() {
    for levels in 0..(1u32 << 12) {
        let mut button = UserButton::new(BtnId::Btn1);
        let mut state: u8 = 0;
        for poll in 0..12 {
            let pressed = (levels >> poll) & 1 == 1;
            let (next, expected) = model_step(state, pressed);
            state = next;
            assert_eq!(
                button.button_status(pressed),
                (BtnId::Btn1, expected),
                "levels {:012b}, poll {}",
                levels,
                poll
            );
        }
    }
}
