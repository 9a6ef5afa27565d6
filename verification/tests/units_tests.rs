use rgbcraft::units::Units;

#[test]
fn pixels_resolve_to_themselves_whatever_the_parent() {
    assert_eq!(Units::Pixels(0).resolved_offset(0), 0);
    assert_eq!(Units::Pixels(0).resolved_offset(u32::MAX), 0);
    assert_eq!(Units::Pixels(17).resolved_offset(3), 17);
    assert_eq!(Units::Pixels(u32::MAX).resolved_offset(1), u32::MAX as u64);
}

#[test]
fn percentage_takes_its_share_of_the_parent() {
    assert_eq!(Units::Percentage(100).resolved_offset(640), 640);
    assert_eq!(Units::Percentage(50).resolved_offset(300), 150);
    assert_eq!(Units::Percentage(50).resolved_offset(301), 150);
    assert_eq!(Units::Percentage(33).resolved_offset(10), 3);
    assert_eq!(Units::Percentage(0).resolved_offset(999), 0);
}

#[test]
fn percentage_of_the_largest_parent_does_not_overflow() {
    let all = u32::MAX;
    assert_eq!(
        Units::Percentage(all).resolved_offset(all),
        (all as u64 * all as u64) / 100
    );
}
