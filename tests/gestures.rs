use switch::{classify, Button, RawSample};

fn sample(pad: u16, left_x: u16, left_y: u16, right_x: u16, right_y: u16) -> RawSample {
    RawSample { pad, left_x, left_y, right_x, right_y }
}

fn centred(pad: u16) -> RawSample {
    sample(pad, 500, 500, 500, 500)
}

#[test]
fn pad_bands_classify_to_presses() {
    assert_eq!(classify(&centred(500)), Button::PressBottom);
    assert_eq!(classify(&centred(510)), Button::PressBottom);
    assert_eq!(classify(&centred(520)), Button::PressBottom);
    assert_eq!(classify(&centred(370)), Button::PressRight);
    assert_eq!(classify(&centred(390)), Button::PressRight);
    assert_eq!(classify(&centred(180)), Button::PressLeft);
    assert_eq!(classify(&centred(200)), Button::PressLeft);
    assert_eq!(classify(&centred(330)), Button::PressTop);
    assert_eq!(classify(&centred(340)), Button::PressTop);
}

#[test]
fn pad_outside_bands_is_idle() {
    for pad in [0u16, 179, 201, 329, 341, 369, 391, 499, 521, 1023] {
        assert_eq!(classify(&centred(pad)), Button::Idle);
    }
}

#[test]
fn same_band_gives_same_button() {
    for pad in 500u16..=520 {
        assert_eq!(classify(&centred(pad)), Button::PressBottom);
    }
    for left_y in 0u16..=200 {
        assert_eq!(classify(&sample(0, 500, left_y, 500, 950)), Button::RotateRight);
    }
}

#[test]
fn joystick_patterns_classify() {
    assert_eq!(classify(&sample(0, 500, 200, 500, 900)), Button::RotateRight);
    assert_eq!(classify(&sample(0, 500, 900, 500, 200)), Button::RotateLeft);
    assert_eq!(classify(&sample(0, 500, 0, 500, 0)), Button::SlideUp);
    assert_eq!(classify(&sample(0, 500, 800, 500, 800)), Button::SlideDown);
    assert_eq!(classify(&sample(0, 900, 500, 200, 500)), Button::SlideRight);
    assert_eq!(classify(&sample(0, 200, 500, 900, 500)), Button::SlideLeft);
}

#[test]
fn joystick_pattern_order_decides() {
    // rotate-right and slide-left both match: rotate-right comes first
    assert_eq!(classify(&sample(0, 100, 100, 950, 950)), Button::RotateRight);
    // slide-right and slide-up both match: slide-up comes first
    assert_eq!(classify(&sample(0, 950, 100, 100, 100)), Button::SlideUp);
}

#[test]
fn joystick_near_edges_is_idle() {
    assert_eq!(classify(&sample(0, 500, 201, 500, 900)), Button::Idle);
    assert_eq!(classify(&sample(0, 500, 799, 500, 1023)), Button::Idle);
    assert_eq!(classify(&sample(0, 899, 500, 100, 500)), Button::Idle);
}

#[test]
fn sliding_overrides_pressing() {
    assert_eq!(classify(&sample(335, 500, 100, 500, 1000)), Button::RotateRight);
    assert_eq!(classify(&sample(510, 100, 500, 1000, 500)), Button::SlideLeft);
    assert_eq!(classify(&sample(190, 500, 850, 500, 850)), Button::SlideDown);
}
