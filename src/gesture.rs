use vstd::prelude::*;

verus! {

/// One classified reading of the controls.
#[derive(Clone, Copy, Debug, PartialEq, Eq, Structural)]
pub enum Button {
    /// No recognised gesture.
    Idle,
    /// Increase blue.
    SlideUp,
    /// Decrease blue.
    SlideDown,
    /// Move the focus point left.
    SlideLeft,
    /// Move the focus point right.
    SlideRight,
    /// Toggle the wall lamps off if selected, else select them.
    PressTop,
    /// Toggle the desk lamps off if selected, else select them.
    PressBottom,
    /// Select the previous lamp group.
    PressRight,
    /// Select the next lamp group.
    PressLeft,
    /// Increase brightness.
    RotateRight,
    /// Decrease brightness.
    RotateLeft,
}

/// The analog readings taken in one pass: the direction pad and the two
/// axes of each joystick.
#[derive(Clone, Copy, Debug, PartialEq, Eq, Structural)]
pub struct RawSample {
    pub pad: u16,
    pub left_x: u16,
    pub left_y: u16,
    pub right_x: u16,
    pub right_y: u16,
}

pub const PAD_BOTTOM_LO: u16 = 500;
pub const PAD_BOTTOM_HI: u16 = 520;
pub const PAD_RIGHT_LO: u16 = 370;
pub const PAD_RIGHT_HI: u16 = 390;
pub const PAD_LEFT_LO: u16 = 180;
pub const PAD_LEFT_HI: u16 = 200;
pub const PAD_TOP_LO: u16 = 330;
pub const PAD_TOP_HI: u16 = 340;

/// A joystick axis at or below this reading is near its minimum.
pub const AXIS_LOW: u16 = 200;
/// A joystick axis at or above this reading is near its maximum.
pub const AXIS_HIGH: u16 = 900;
/// Both vertical axes at or above this reading slide down.
pub const AXIS_DOWN: u16 = 800;

/// The pad reading lies in the band of the press gesture `b`.
pub open spec fn pad_matches(pad: u16, b: Button) -> bool {
    match b {
        Button::PressBottom => PAD_BOTTOM_LO <= pad <= PAD_BOTTOM_HI,
        Button::PressRight => PAD_RIGHT_LO <= pad <= PAD_RIGHT_HI,
        Button::PressLeft => PAD_LEFT_LO <= pad <= PAD_LEFT_HI,
        Button::PressTop => PAD_TOP_LO <= pad <= PAD_TOP_HI,
        _ => false,
    }
}

/// The joystick readings fit the pattern of the slide or rotate gesture `b`.
pub open spec fn stick_matches(s: RawSample, b: Button) -> bool {
    match b {
        Button::RotateRight => s.left_y <= AXIS_LOW && s.right_y >= AXIS_HIGH,
        Button::RotateLeft => s.left_y >= AXIS_HIGH && s.right_y <= AXIS_LOW,
        Button::SlideUp => s.left_y <= AXIS_LOW && s.right_y <= AXIS_LOW,
        Button::SlideDown => s.left_y >= AXIS_DOWN && s.right_y >= AXIS_DOWN,
        Button::SlideRight => s.left_x >= AXIS_HIGH && s.right_x <= AXIS_LOW,
        Button::SlideLeft => s.left_x <= AXIS_LOW && s.right_x >= AXIS_HIGH,
        _ => false,
    }
}

/// The press gesture whose band holds the pad reading, if any.
pub open spec fn pad_gesture(pad: u16) -> Button {
    if pad_matches(pad, Button::PressBottom) {
        Button::PressBottom
    } else if pad_matches(pad, Button::PressRight) {
        Button::PressRight
    } else if pad_matches(pad, Button::PressLeft) {
        Button::PressLeft
    } else if pad_matches(pad, Button::PressTop) {
        Button::PressTop
    } else {
        Button::Idle
    }
}

/// The first joystick pattern that matches, in the fixed order
/// rotate-right, rotate-left, slide-up, slide-down, slide-right, slide-left.
pub open spec fn stick_gesture(s: RawSample) -> Button {
    if stick_matches(s, Button::RotateRight) {
        Button::RotateRight
    } else if stick_matches(s, Button::RotateLeft) {
        Button::RotateLeft
    } else if stick_matches(s, Button::SlideUp) {
        Button::SlideUp
    } else if stick_matches(s, Button::SlideDown) {
        Button::SlideDown
    } else if stick_matches(s, Button::SlideRight) {
        Button::SlideRight
    } else if stick_matches(s, Button::SlideLeft) {
        Button::SlideLeft
    } else {
        Button::Idle
    }
}

/// Sliding and rotating override pressing.
pub open spec fn gesture_of(s: RawSample) -> Button {
    if stick_gesture(s) != Button::Idle {
        stick_gesture(s)
    } else {
        pad_gesture(s.pad)
    }
}

/// A slide or rotate gesture.
pub open spec fn is_stick_button(b: Button) -> bool {
    ||| b == Button::RotateRight
    ||| b == Button::RotateLeft
    ||| b == Button::SlideUp
    ||| b == Button::SlideDown
    ||| b == Button::SlideRight
    ||| b == Button::SlideLeft
}

/// A press gesture of the direction pad.
pub open spec fn is_pad_button(b: Button) -> bool {
    ||| b == Button::PressTop
    ||| b == Button::PressBottom
    ||| b == Button::PressLeft
    ||| b == Button::PressRight
}

/// Two samples lie in exactly the same bands and patterns.
pub open spec fn same_bands(a: RawSample, b: RawSample) -> bool {
    forall|g: Button|
        #![trigger pad_matches(a.pad, g)]
        #![trigger stick_matches(a, g)]
        pad_matches(a.pad, g) == pad_matches(b.pad, g) && stick_matches(a, g) == stick_matches(b, g)
}

/// The sample lies in no band and fits no pattern.
pub open spec fn outside_all_bands(s: RawSample) -> bool {
    forall|g: Button|
        #![trigger pad_matches(s.pad, g)]
        #![trigger stick_matches(s, g)]
        !pad_matches(s.pad, g) && !stick_matches(s, g)
}

fn classify_pad(pad: u16) -> (r: Button)
    ensures
        r == pad_gesture(pad),
{
    if PAD_BOTTOM_LO <= pad && pad <= PAD_BOTTOM_HI {
        Button::PressBottom
    } else if PAD_RIGHT_LO <= pad && pad <= PAD_RIGHT_HI {
        Button::PressRight
    } else if PAD_LEFT_LO <= pad && pad <= PAD_LEFT_HI {
        Button::PressLeft
    } else if PAD_TOP_LO <= pad && pad <= PAD_TOP_HI {
        Button::PressTop
    } else {
        Button::Idle
    }
}

fn classify_stick(s: &RawSample) -> (r: Button)
    ensures
        r == stick_gesture(*s),
{
    if s.left_y <= AXIS_LOW && s.right_y >= AXIS_HIGH {
        Button::RotateRight
    } else if s.left_y >= AXIS_HIGH && s.right_y <= AXIS_LOW {
        Button::RotateLeft
    } else if s.left_y <= AXIS_LOW && s.right_y <= AXIS_LOW {
        Button::SlideUp
    } else if s.left_y >= AXIS_DOWN && s.right_y >= AXIS_DOWN {
        Button::SlideDown
    } else if s.left_x >= AXIS_HIGH && s.right_x <= AXIS_LOW {
        Button::SlideRight
    } else if s.left_x <= AXIS_LOW && s.right_x >= AXIS_HIGH {
        Button::SlideLeft
    } else {
        Button::Idle
    }
}

/// Classifies one pass of readings into a single gesture.
pub fn classify(s: &RawSample) -> (r: Button)
    ensures
        r == gesture_of(*s),
{
    let stick = classify_stick(s);
    if stick != Button::Idle {
        stick
    } else {
        classify_pad(s.pad)
    }
}

/// Samples that lie in the same bands classify alike, and a sample that lies
/// in no band classifies as no gesture.
pub proof fn lemma_bands_decide(a: RawSample, b: RawSample)
    ensures
        same_bands(a, b) ==> gesture_of(a) == gesture_of(b),
        outside_all_bands(a) ==> gesture_of(a) == Button::Idle,
{
    if same_bands(a, b) {
        assert(pad_matches(a.pad, Button::PressBottom) == pad_matches(b.pad, Button::PressBottom));
        assert(pad_matches(a.pad, Button::PressRight) == pad_matches(b.pad, Button::PressRight));
        assert(pad_matches(a.pad, Button::PressLeft) == pad_matches(b.pad, Button::PressLeft));
        assert(pad_matches(a.pad, Button::PressTop) == pad_matches(b.pad, Button::PressTop));
        assert(stick_matches(a, Button::RotateRight) == stick_matches(b, Button::RotateRight));
        assert(stick_matches(a, Button::RotateLeft) == stick_matches(b, Button::RotateLeft));
        assert(stick_matches(a, Button::SlideUp) == stick_matches(b, Button::SlideUp));
        assert(stick_matches(a, Button::SlideDown) == stick_matches(b, Button::SlideDown));
        assert(stick_matches(a, Button::SlideRight) == stick_matches(b, Button::SlideRight));
        assert(stick_matches(a, Button::SlideLeft) == stick_matches(b, Button::SlideLeft));
    }
    if outside_all_bands(a) {
        assert(!pad_matches(a.pad, Button::PressBottom));
        assert(!pad_matches(a.pad, Button::PressRight));
        assert(!pad_matches(a.pad, Button::PressLeft));
        assert(!pad_matches(a.pad, Button::PressTop));
        assert(!stick_matches(a, Button::RotateRight));
        assert(!stick_matches(a, Button::RotateLeft));
        assert(!stick_matches(a, Button::SlideUp));
        assert(!stick_matches(a, Button::SlideDown));
        assert(!stick_matches(a, Button::SlideRight));
        assert(!stick_matches(a, Button::SlideLeft));
    }
}

/// The pad bands do not overlap: a pad reading in the band of a press
/// gesture, with no joystick pattern matching, classifies as that gesture.
pub proof fn lemma_pad_band_gives_press(s: RawSample, g: Button)
    requires
        pad_matches(s.pad, g),
        stick_gesture(s) == Button::Idle,
    ensures
        gesture_of(s) == g,
        is_pad_button(g),
{
}

/// Where a joystick pattern and a pad band both match, the joystick gesture
/// is the one returned.
pub proof fn lemma_stick_overrides_pad(s: RawSample, stick: Button, press: Button)
    requires
        stick_matches(s, stick),
        pad_matches(s.pad, press),
    ensures
        gesture_of(s) == stick_gesture(s),
        is_stick_button(gesture_of(s)),
{
}

} // verus!
