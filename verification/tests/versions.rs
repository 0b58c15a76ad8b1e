use ios_agent_background::version::{
    system_version_string, unsupported_version_message, OperatingSystemVersion,
};

fn version(major_version: isize, minor_version: isize, patch_version: isize) -> OperatingSystemVersion {
    OperatingSystemVersion { major_version, minor_version, patch_version }
}

#[test]
fn system_version_is_dotted() {
    assert_eq!(system_version_string(Some(version(26, 0, 1))), "26.0.1");
    assert_eq!(system_version_string(Some(version(17, 10, 200))), "17.10.200");
}

#[test]
fn system_version_is_unknown_without_a_version() {
    assert_eq!(system_version_string(None), "unknown");
}

#[test]
fn numbers_are_written_as_the_standard_library_writes_them() {
    for number in [0, 7, 9, 10, 99, 100, 12345, -1, -10, isize::MAX, isize::MIN] {
        assert_eq!(
            system_version_string(Some(version(number, 0, number))),
            format!("{}.0.{}", number, number)
        );
    }
}

#[test]
fn unsupported_version_is_named() {
    assert_eq!(
        unsupported_version_message(version(18, 2, 0)),
        "iOS 18.2.0 does not support BGContinuedProcessingTask"
    );
}
