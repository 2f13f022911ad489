use sbfcam::vision::{
    detect_value, pixel_probe_args, pixel_verdict, probe_passed, signed_decimal_string,
    stage_probe, LoadAction, LoadCheck, LoadStage, PROBES_PER_STAGE,
};

#[test]
fn verdict_reads_json_booleans() {
    assert!(pixel_verdict("true"));
    assert!(pixel_verdict("true\r\n"));
    assert!(pixel_verdict("  \ttrue "));
    assert!(!pixel_verdict("false\n"));
    assert!(!pixel_verdict(""));
    assert!(!pixel_verdict("True"));
    assert!(!pixel_verdict("true x"));
    assert!(!pixel_verdict("1"));
    assert!(!pixel_verdict("Traceback (most recent call last):"));
}

#[test]
fn decimal_numbers_keep_their_sign() {
    assert_eq!(signed_decimal_string(0), "0");
    assert_eq!(signed_decimal_string(691), "691");
    assert_eq!(signed_decimal_string(-12), "-12");
    assert_eq!(signed_decimal_string(i32::MIN as i64), "-2147483648");
    assert_eq!(signed_decimal_string(i64::MIN), "-9223372036854775808");
    assert_eq!(signed_decimal_string(i64::MAX), "9223372036854775807");
    assert_eq!(detect_value(179, 179, 179), "179,179,179");
    assert_eq!(detect_value(-1, 0, 255), "-1,0,255");
}

#[test]
fn probe_command_line() {
    let args = pixel_probe_args(691, 669, 9, 5, 255, 255, 255);
    let expected: Vec<&str> = vec![
        "/C",
        "poetry",
        "run",
        "python",
        "cv_functions.py",
        "--func",
        "detect_pixels",
        "--left",
        "691",
        "--top",
        "669",
        "--width",
        "9",
        "--height",
        "5",
        "--detect_value",
        "255,255,255",
    ];
    assert_eq!(args, expected);
}

#[test]
fn stage_probes() {
    assert!(stage_probe(LoadStage::WindowActive).is_none());
    let hover = stage_probe(LoadStage::BackpackHover).unwrap();
    assert_eq!((hover.left, hover.top, hover.width, hover.height), (691, 669, 9, 5));
    assert_eq!((hover.red, hover.green, hover.blue), (179, 179, 179));
    assert!(probe_passed(hover, true));
    assert!(!probe_passed(hover, false));
    let hidden = stage_probe(LoadStage::NavbarHidden).unwrap();
    assert_eq!((hidden.red, hidden.green, hidden.blue), (255, 255, 255));
    assert!(probe_passed(hidden, false));
    assert!(!probe_passed(hidden, true));
}

#[test]
fn load_wait_passes_every_stage_in_turn() {
    let (mut c, first) = LoadCheck::new();
    assert_eq!(first, LoadAction::Probe { stage: LoadStage::WindowActive, after_pause: false });
    assert_eq!(c.step(false), LoadAction::Probe { stage: LoadStage::WindowActive, after_pause: true });
    assert_eq!(c.failures, 1);
    assert_eq!(c.step(true), LoadAction::Probe { stage: LoadStage::BackpackHover, after_pause: false });
    assert_eq!(c.failures, 0);
    assert_eq!(c.step(true), LoadAction::Probe { stage: LoadStage::Navbar, after_pause: false });
    assert_eq!(c.step(true), LoadAction::Probe { stage: LoadStage::NavbarHidden, after_pause: false });
    assert_eq!(c.step(true), LoadAction::Done { loaded: true, after_pause: false });
}

#[test]
fn load_wait_gives_up_after_a_stage_fails_sixty_times() {
    assert_eq!(PROBES_PER_STAGE, 60);
    let (mut c, _) = LoadCheck::new();
    assert_eq!(c.step(true), LoadAction::Probe { stage: LoadStage::BackpackHover, after_pause: false });
    for i in 1..60 {
        assert_eq!(c.step(false), LoadAction::Probe { stage: LoadStage::BackpackHover, after_pause: true });
        assert_eq!(c.failures, i);
    }
    assert_eq!(c.step(false), LoadAction::Done { loaded: false, after_pause: true });
}
