//! The display-status bucket and the string helpers.

use docker_ps::container::Status;
use docker_ps::text::{eq_ignore_ascii_case, find_space, str_eq};

#[test]
fn status_carries_its_display_text() {
    let status = Status::Active { display: "up 2 hours".to_owned() };
    assert_eq!(status.display(), "up 2 hours");
    let status = Status::Restarting { display: "restarting".to_owned() };
    assert_eq!(status.display(), "restarting");
    let status = Status::Looping { display: "crash loop".to_owned() };
    assert_eq!(status.display(), "crash loop");
    let status = Status::Inactive { display: "exited (0)".to_owned() };
    assert_eq!(status.display(), "exited (0)");
}

#[test]
fn str_eq_compares_characters() {
    assert!(str_eq("dla", "dla"));
    assert!(!str_eq("dla", "dl"));
    assert!(!str_eq("dla", "dlb"));
    assert!(str_eq("", ""));
}

#[test]
fn case_insensitive_comparison_is_ascii_only() {
    assert!(eq_ignore_ascii_case("Running", "rUnNiNg"));
    assert!(eq_ignore_ascii_case("", ""));
    assert!(!eq_ignore_ascii_case("Running", "Running "));
    assert!(!eq_ignore_ascii_case("Paused", "Pause"));
}

#[test]
fn find_space_returns_first_space() {
    assert_eq!(find_space("dps"), None);
    assert_eq!(find_space("docker ps"), Some(6));
    assert_eq!(find_space(" lead"), Some(0));
    assert_eq!(find_space("a b c"), Some(1));
}
