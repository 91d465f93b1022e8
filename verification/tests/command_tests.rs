use i3_switcher::focus_command;

#[test]
fn command_for_sentinel_identifier() {
    assert_eq!(focus_command(0), "[id=0] focus");
}

#[test]
fn command_for_single_digit_identifier() {
    assert_eq!(focus_command(7), "[id=7] focus");
}

#[test]
fn command_for_multi_digit_identifier() {
    assert_eq!(focus_command(1234567890), "[id=1234567890] focus");
}

#[test]
fn command_for_largest_identifier() {
    assert_eq!(focus_command(u32::MAX), "[id=4294967295] focus");
}

#[test]
fn command_for_round_identifier() {
    assert_eq!(focus_command(1000), "[id=1000] focus");
}
