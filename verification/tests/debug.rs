use ucb_mscs_courses_core::debug::{if_debug, if_release};

#[test]
fn if_debug_wraps_in_debug_builds() {
    assert_eq!(if_debug(true, || 5), Some(5));
    assert_eq!(if_debug(false, || -> i32 { panic!("not called in release builds") }), None);
}

#[test]
fn if_release_wraps_in_release_builds() {
    assert_eq!(if_release(false, || "x".to_string()), Some("x".to_string()));
    assert_eq!(if_release(true, || -> i32 { panic!("not called in debug builds") }), None);
}

#[test]
fn exactly_one_wraps() {
    for debug in [true, false] {
        let a = if_debug(debug, || 1);
        let b = if_release(debug, || 2);
        assert!(a.is_some() != b.is_some());
    }
}
