use realtime_backend::preset::{preset_for_type, resolved_preset};

#[test]
fn known_presets() {
    let p = preset_for_type("pink").unwrap();
    assert_eq!((p.exponent_centi, p.high_exponent_centi, p.curve_centi, p.amplitude_centi), (100, 100, 100, 100));
    let p = preset_for_type("red").unwrap();
    assert_eq!((p.exponent_centi, p.high_exponent_centi), (200, 150));
    let p = preset_for_type("green").unwrap();
    assert_eq!((p.lowcut_hz, p.highcut_hz), (Some(100), Some(8000)));
    let p = preset_for_type("deep brown").unwrap();
    assert_eq!((p.exponent_centi, p.high_exponent_centi), (250, 200));
    let p = preset_for_type("purple").unwrap();
    assert_eq!(p.exponent_centi, -200);
    assert!(preset_for_type("Pink").is_none());
    assert!(preset_for_type("grey").is_none());
}

#[test]
fn names_ignore_case() {
    let p = resolved_preset(Some("Brown"));
    assert_eq!((p.exponent_centi, p.high_exponent_centi), (200, 200));
    let p = resolved_preset(Some("BLUE"));
    assert_eq!(p.exponent_centi, -100);
    let p = resolved_preset(Some("Deep Brown"));
    assert_eq!(p.exponent_centi, 250);
}

#[test]
fn missing_or_unknown_name_is_pink() {
    let p = resolved_preset(None);
    assert_eq!((p.exponent_centi, p.high_exponent_centi), (100, 100));
    let p = resolved_preset(Some("grey"));
    assert_eq!((p.exponent_centi, p.high_exponent_centi), (100, 100));
    assert_eq!((p.lowcut_hz, p.highcut_hz), (None, None));
}
