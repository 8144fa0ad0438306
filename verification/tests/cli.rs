use fermix_desktop::capture::directory_from;
use fermix_desktop::cli::{
    build_id, toolkit_arguments, toolkit_arguments_when, version_line, wants_version, COMPILED_BUILD_ID,
    PRODUCT_VERSION,
};

fn arguments(pieces: &[&str]) -> Vec<String> {
    pieces.iter().map(|piece| (*piece).to_string()).collect()
}

#[test]
fn the_version_line_carries_the_product_version_and_the_build_id() {
    let line = version_line(None);

    assert!(line.starts_with("fermix-desktop "));
    assert!(line.contains(PRODUCT_VERSION));
    assert!(line.contains(COMPILED_BUILD_ID));
}

#[test]
fn the_version_line_reads_exactly() {
    assert_eq!(version_line(None), "fermix-desktop 0.1.0 (build dev)");
}

#[test]
fn a_stamped_build_prints_its_own_id() {
    assert_eq!(version_line(Some("2026.08.19-1")), "fermix-desktop 0.1.0 (build 2026.08.19-1)");
    assert_eq!(version_line(Some("")), "fermix-desktop 0.1.0 (build dev)");
    assert_eq!(build_id(Some("r42")), "r42");
    assert_eq!(build_id(None), COMPILED_BUILD_ID);
}

#[test]
fn only_the_version_flag_asks_what_this_build_is() {
    assert!(wants_version(&arguments(&["fermix-desktop", "--version"])));
    assert!(!wants_version(&arguments(&["fermix-desktop"])));
    assert!(!wants_version(&arguments(&[
        "fermix-desktop",
        "--gapplication-service"
    ])));
    // The program's own path is never read as a flag.
    assert!(!wants_version(&arguments(&["--version"])));
}

#[test]
fn the_toolkits_own_arguments_reach_it() {
    assert_eq!(
        toolkit_arguments(&arguments(&["fermix-desktop", "--gapplication-service"])),
        arguments(&["fermix-desktop", "--gapplication-service"])
    );
    assert_eq!(
        toolkit_arguments(&arguments(&["fermix-desktop", "fermix://settings"])),
        arguments(&["fermix-desktop", "fermix://settings"])
    );
    assert_eq!(toolkit_arguments(&[]), Vec::<String>::new());
}

#[test]
fn the_capture_flag_is_this_binarys_and_does_not_reach_the_toolkit() {
    assert_eq!(
        toolkit_arguments(&arguments(&["fermix-desktop", "--capture", "/tmp/shots"])),
        arguments(&["fermix-desktop"])
    );
    assert_eq!(
        toolkit_arguments(&arguments(&[
            "fermix-desktop",
            "--capture=/tmp/shots",
            "--gapplication-service"
        ])),
        arguments(&["fermix-desktop", "--gapplication-service"])
    );
}

#[test]
fn a_build_that_does_not_own_the_capture_flag_passes_it_on() {
    assert_eq!(
        toolkit_arguments_when(
            false,
            &arguments(&["fermix-desktop", "--capture", "/tmp/shots"])
        ),
        arguments(&["fermix-desktop", "--capture", "/tmp/shots"])
    );
}

#[test]
fn the_capture_directory_is_read_in_either_spelling() {
    assert_eq!(
        directory_from(&arguments(&["fermix-desktop", "--capture", "/tmp/shots"])),
        Some("/tmp/shots".to_string())
    );
    assert_eq!(
        directory_from(&arguments(&["fermix-desktop", "--capture=/tmp/other"])),
        Some("/tmp/other".to_string())
    );
    assert_eq!(directory_from(&arguments(&["fermix-desktop", "--capture"])), None);
    assert_eq!(directory_from(&arguments(&["fermix-desktop"])), None);
}

#[test]
fn a_capture_flag_in_the_middle_takes_only_its_directory_with_it() {
    assert_eq!(
        toolkit_arguments(&arguments(&[
            "fermix-desktop",
            "--capture",
            "/tmp/shots",
            "--gapplication-service"
        ])),
        arguments(&["fermix-desktop", "--gapplication-service"])
    );
    assert_eq!(
        toolkit_arguments(&arguments(&["fermix-desktop", "--capture"])),
        arguments(&["fermix-desktop"])
    );
}
