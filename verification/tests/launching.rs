use command_timeout::launch::{window_suppression_flag, NO_WINDOW_FLAG};

#[test]
fn windowed_systems_get_the_hide_flag() {
    assert_eq!(window_suppression_flag(true), Some(0x08000000));
    assert_eq!(window_suppression_flag(true), Some(NO_WINDOW_FLAG));
}

#[test]
fn other_systems_get_no_flag() {
    assert_eq!(window_suppression_flag(false), None);
}
