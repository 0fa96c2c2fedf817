//! The three buttons of the station: debounced levels become button events.

use vstd::prelude::*;
use debouncr::{Debouncer, Repeat4};

verus! {

/// Which of the three buttons.
#[derive(Clone, Copy, Debug, PartialEq, Eq, Structural)]
pub enum BtnId {
    Btn1,
    Btn2,
    Btn3,
}

/// What a button did at one poll.
#[derive(Clone, Copy, Debug, PartialEq, Eq, Structural)]
pub enum BtnState {
    Pressed,
    Released,
    Held,
}

/// A button event as the display takes it.
#[derive(Clone, Copy, Debug, PartialEq, Eq, PartialOrd, Structural)]
pub enum UserBtnState {
    Btn1Pressed,
    Btn1Released,
    Btn1Held,
    Btn2Pressed,
    Btn2Released,
    Btn2Held,
    Btn3Pressed,
    Btn3Released,
    Btn3Held,
}

/// An edge that the debouncer reports.
#[derive(Clone, Copy, Debug, PartialEq, Eq, Structural)]
pub enum ButtonEdge {
    Rising,
    Falling,
}

/// The type `debouncr::Debouncer`, a debouncer over a state of type `S`
/// that detects `M` equal levels in a row. Nothing is seen inside it.
#[verifier::external_type_specification]
#[verifier::external_body]
#[verifier::reject_recursive_types(S)]
#[verifier::reject_recursive_types(M)]
pub struct ExDebouncer<S, M>(Debouncer<S, M>);

/// The type `debouncr::Repeat4`, which marks a debouncer for four levels.
#[verifier::external_type_specification]
#[verifier::external_body]
pub struct ExRepeat4(Repeat4);

/// The state that a `debouncr::Debouncer` for four levels holds: its four
/// low bits are the four levels that it took in last, the latest lowest.
pub uninterp spec fn debouncer_state(debouncer: Debouncer<u8, Repeat4>) -> u8;

/// All four levels pressed.
pub const STABLE_HIGH: u8 = 0x0f;

/// The state is settled on the level that arrives: nothing changes.
pub open spec fn spec_steady(state: u8, pressed: bool) -> bool {
    (state == STABLE_HIGH && pressed) || (state == 0 && !pressed)
}

/// The state after one more level: unless it is settled on that level, the
/// levels move up by one and the new one comes in at the bottom.
pub open spec fn spec_next_state(state: u8, pressed: bool) -> u8 {
    if spec_steady(state, pressed) {
        state
    } else if pressed {
        ((state << 1) | 1) & STABLE_HIGH
    } else {
        (state << 1) & STABLE_HIGH
    }
}

/// The edge that one more level gives: rising where it makes all four
/// levels pressed, falling where it makes all four released, none while the
/// button bounces or stays settled.
pub open spec fn spec_edge(state: u8, pressed: bool) -> Option<ButtonEdge> {
    if spec_steady(state, pressed) {
        None
    } else if spec_next_state(state, pressed) == STABLE_HIGH {
        Some(ButtonEdge::Rising)
    } else if spec_next_state(state, pressed) == 0 {
        Some(ButtonEdge::Falling)
    } else {
        None
    }
}

/// Calls `debouncr::debounce_4` for a button that starts released. The
/// contract claims that the new debouncer holds four released levels.
#[verifier::external_body]
fn new_debouncer() -> (debouncer: Debouncer<u8, Repeat4>)
    ensures
        debouncer_state(debouncer) == 0,
{
    debouncr::debounce_4(false)
}

/// Calls `Debouncer::update` of the debouncer for four levels. The contract
/// claims what the method's source shows: a debouncer that is settled on
/// the level reports nothing and stays as it is; otherwise the level is
/// shifted into the four kept levels, and a rising edge is reported where
/// all four are then pressed, a falling edge where none is.
#[verifier::external_body]
fn update_debouncer(debouncer: &mut Debouncer<u8, Repeat4>, pressed: bool) -> (edge: Option<
    ButtonEdge,
>)
    ensures
        debouncer_state(*final(debouncer)) == spec_next_state(
            debouncer_state(*old(debouncer)),
            pressed,
        ),
        edge == spec_edge(debouncer_state(*old(debouncer)), pressed),
{
    match debouncer.update(pressed) {
        Some(debouncr::Edge::Rising) => Some(ButtonEdge::Rising),
        Some(debouncr::Edge::Falling) => Some(ButtonEdge::Falling),
        None => None,
    }
}

/// One button with its debouncer.
pub struct UserButton {
    pub btn_state: Debouncer<u8, Repeat4>,
    pub btn_id: BtnId,
}

/// What a button did, by the edge of its debouncer: a rising edge is a
/// press, a falling edge a release, and without an edge the button is held.
pub open spec fn spec_button_state(edge: Option<ButtonEdge>) -> BtnState {
    match edge {
        Some(ButtonEdge::Rising) => BtnState::Pressed,
        Some(ButtonEdge::Falling) => BtnState::Released,
        None => BtnState::Held,
    }
}

impl UserButton {
    /// A button that starts released.
    pub fn new(btn_id: BtnId) -> (button: UserButton)
        ensures
            button.btn_id == btn_id,
            debouncer_state(button.btn_state) == 0,
    {
        UserButton { btn_state: new_debouncer(), btn_id }
    }

    /// Takes in the level of the button's pin, `true` where the button is
    /// down, and says what the button did.
    pub fn button_status(&mut self, is_low: bool) -> (status: (BtnId, BtnState))
        ensures
            status.0 == old(self).btn_id,
            status.1 == spec_button_state(spec_edge(debouncer_state(old(self).btn_state), is_low)),
            final(self).btn_id == old(self).btn_id,
            debouncer_state(final(self).btn_state) == spec_next_state(
                debouncer_state(old(self).btn_state),
                is_low,
            ),
    {
        let button_edge: Option<ButtonEdge> = update_debouncer(&mut self.btn_state, is_low);
        match button_edge {
            Some(ButtonEdge::Rising) => (self.btn_id, BtnState::Pressed),
            Some(ButtonEdge::Falling) => (self.btn_id, BtnState::Released),
            None => (self.btn_id, BtnState::Held),
        }
    }
}

/// The event that a button's status stands for. A held button gives none.
pub open spec fn spec_button_event(btn_id: BtnId, state: BtnState) -> Option<UserBtnState> {
    match (btn_id, state) {
        (BtnId::Btn1, BtnState::Pressed) => Some(UserBtnState::Btn1Pressed),
        (BtnId::Btn2, BtnState::Pressed) => Some(UserBtnState::Btn2Pressed),
        (BtnId::Btn3, BtnState::Pressed) => Some(UserBtnState::Btn3Pressed),
        (BtnId::Btn1, BtnState::Released) => Some(UserBtnState::Btn1Released),
        (BtnId::Btn2, BtnState::Released) => Some(UserBtnState::Btn2Released),
        (BtnId::Btn3, BtnState::Released) => Some(UserBtnState::Btn3Released),
        _ => None,
    }
}

/// The event to send for a button's status, if any.
pub fn button_event(btn_id: BtnId, state: BtnState) -> (event: Option<UserBtnState>)
    ensures
        event == spec_button_event(btn_id, state),
{
    match (btn_id, state) {
        (BtnId::Btn1, BtnState::Pressed) => Some(UserBtnState::Btn1Pressed),
        (BtnId::Btn2, BtnState::Pressed) => Some(UserBtnState::Btn2Pressed),
        (BtnId::Btn3, BtnState::Pressed) => Some(UserBtnState::Btn3Pressed),
        (BtnId::Btn1, BtnState::Released) => Some(UserBtnState::Btn1Released),
        (BtnId::Btn2, BtnState::Released) => Some(UserBtnState::Btn2Released),
        (BtnId::Btn3, BtnState::Released) => Some(UserBtnState::Btn3Released),
        _ => None,
    }
}

/// The three buttons of the station.
pub struct UserButtons {
    pub left: UserButton,
    pub middle: UserButton,
    pub right: UserButton,
}

/// The events of one poll: of each button in turn, the event of its status
/// where there is one.
pub open spec fn spec_poll_events(
    left: Option<UserBtnState>,
    middle: Option<UserBtnState>,
    right: Option<UserBtnState>,
) -> Seq<UserBtnState> {
    (match left {
        Some(event) => seq![event],
        None => seq![],
    }) + (match middle {
        Some(event) => seq![event],
        None => seq![],
    }) + (match right {
        Some(event) => seq![event],
        None => seq![],
    })
}

/// The event of one button at one poll, by the state of its debouncer
/// before the poll and the level of its pin.
pub open spec fn spec_poll_button(btn_id: BtnId, state: u8, is_low: bool) -> Option<
    UserBtnState,
> {
    spec_button_event(btn_id, spec_button_state(spec_edge(state, is_low)))
}

impl UserButtons {
    /// Three buttons that start released: the left one is button 1, the
    /// middle one button 2, the right one button 3.
    pub fn new() -> (buttons: UserButtons)
        ensures
            buttons.left.btn_id == BtnId::Btn1,
            buttons.middle.btn_id == BtnId::Btn2,
            buttons.right.btn_id == BtnId::Btn3,
            debouncer_state(buttons.left.btn_state) == 0,
            debouncer_state(buttons.middle.btn_state) == 0,
            debouncer_state(buttons.right.btn_state) == 0,
    {
        UserButtons {
            left: UserButton::new(BtnId::Btn1),
            middle: UserButton::new(BtnId::Btn2),
            right: UserButton::new(BtnId::Btn3),
        }
    }

    /// Takes in the levels of the three pins, `true` where a button is
    /// down, and gives the events to send, in the order of the buttons.
    pub fn poll(&mut self, left_low: bool, middle_low: bool, right_low: bool) -> (events: Vec<
        UserBtnState,
    >)
        ensures
            events@ == spec_poll_events(
                spec_poll_button(
                    old(self).left.btn_id,
                    debouncer_state(old(self).left.btn_state),
                    left_low,
                ),
                spec_poll_button(
                    old(self).middle.btn_id,
                    debouncer_state(old(self).middle.btn_state),
                    middle_low,
                ),
                spec_poll_button(
                    old(self).right.btn_id,
                    debouncer_state(old(self).right.btn_state),
                    right_low,
                ),
            ),
            final(self).left.btn_id == old(self).left.btn_id,
            final(self).middle.btn_id == old(self).middle.btn_id,
            final(self).right.btn_id == old(self).right.btn_id,
            debouncer_state(final(self).left.btn_state) == spec_next_state(
                debouncer_state(old(self).left.btn_state),
                left_low,
            ),
            debouncer_state(final(self).middle.btn_state) == spec_next_state(
                debouncer_state(old(self).middle.btn_state),
                middle_low,
            ),
            debouncer_state(final(self).right.btn_state) == spec_next_state(
                debouncer_state(old(self).right.btn_state),
                right_low,
            ),
    {
        let mut events: Vec<UserBtnState> = Vec::new();
        let left: (BtnId, BtnState) = self.left.button_status(left_low);
        if let Some(event) = button_event(left.0, left.1) {
            events.push(event);
        }
        let middle: (BtnId, BtnState) = self.middle.button_status(middle_low);
        if let Some(event) = button_event(middle.0, middle.1) {
            events.push(event);
        }
        let right: (BtnId, BtnState) = self.right.button_status(right_low);
        if let Some(event) = button_event(right.0, right.1) {
            events.push(event);
        }
        proof {
            assert(events@ =~= spec_poll_events(
                spec_poll_button(
                    old(self).left.btn_id,
                    debouncer_state(old(self).left.btn_state),
                    left_low,
                ),
                spec_poll_button(
                    old(self).middle.btn_id,
                    debouncer_state(old(self).middle.btn_state),
                    middle_low,
                ),
                spec_poll_button(
                    old(self).right.btn_id,
                    debouncer_state(old(self).right.btn_state),
                    right_low,
                ),
            ));
        }
        events
    }
}

/// Four equal levels in a row settle the debouncer on that level, whatever
/// it held before.
pub proof fn lemma_settles_after_four(state: u8, pressed: bool)
    ensures
        spec_next_state(
            spec_next_state(spec_next_state(spec_next_state(state, pressed), pressed), pressed),
            pressed,
        ) == (if pressed {
            STABLE_HIGH
        } else {
            0u8
        }),
{
    assert(spec_next_state(
        spec_next_state(spec_next_state(spec_next_state(state, pressed), pressed), pressed),
        pressed,
    ) == (if pressed {
        STABLE_HIGH
    } else {
        0u8
    })) by (bit_vector);
}

/// A button at rest that is held down reports its press at the fourth
/// poll, and not before; held down longer it reports nothing more.
pub proof fn lemma_press_at_fourth_poll()
    ensures
        spec_edge(0, true) is None,
        spec_edge(spec_next_state(0, true), true) is None,
        spec_edge(spec_next_state(spec_next_state(0, true), true), true) is None,
        spec_edge(spec_next_state(spec_next_state(spec_next_state(0, true), true), true), true)
            == Some(ButtonEdge::Rising),
        spec_edge(STABLE_HIGH, true) is None,
        spec_next_state(STABLE_HIGH, true) == STABLE_HIGH,
{
    assert(spec_next_state(0, true) == 1 && spec_next_state(1, true) == 3 && spec_next_state(
        3,
        true,
    ) == 7 && spec_next_state(7, true) == 15) by (bit_vector);
}

/// A settled button that reads its settled level again reports no edge
/// and stays settled.
pub proof fn lemma_settled_is_silent(pressed: bool)
    ensures
        spec_edge(if pressed { STABLE_HIGH } else { 0u8 }, pressed) is None,
        spec_next_state(if pressed { STABLE_HIGH } else { 0u8 }, pressed) == (if pressed {
            STABLE_HIGH
        } else {
            0u8
        }),
{
}

} // verus!
