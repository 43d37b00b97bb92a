use pyorion::get_pyorion_version;
use pyorion::version;

#[test]
fn alpha_and_beta_marks_are_written_short() {
    assert_eq!(get_pyorion_version("1.0.0-alpha1"), "1.0.0a1");
    assert_eq!(get_pyorion_version("2.3.4-beta12"), "2.3.4b12");
    assert_eq!(get_pyorion_version("0.1.0"), "0.1.0");
    assert_eq!(get_pyorion_version(""), "");
    assert_eq!(get_pyorion_version("1.0-alpha-beta"), "1.0ab");
    assert_eq!(get_pyorion_version("1.0.0-rc1"), "1.0.0-rc1");
}

#[test]
fn the_version_is_reachable_through_its_module() {
    assert_eq!(version::get_pyorion_version("1.0-alpha1"), "1.0a1");
}

#[test]
fn marks_are_replaced_in_one_pass_from_the_left() {
    assert_eq!(get_pyorion_version("1.0-alph-alphaa"), "1.0-alphaa");
    assert_eq!(get_pyorion_version("1.0-bet-betaa"), "1.0-betba");
    assert_eq!(get_pyorion_version("-alpha-alpha"), "aa");
}
