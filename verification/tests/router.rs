use bootc_media_creator::layout::{partition_path, partition_separator};
use bootc_media_creator::text::{i32_to_decimal, str_lex_lt, trim_spaces, u32_to_decimal};
use bootc_media_creator::utils::{clone_strings, is_flatpak, privileged_command};

#[test]
fn digit_suffixed_devices_use_the_p_separator() {
    assert_eq!(partition_separator("/dev/nvme0n1"), "p");
    assert_eq!(partition_separator("/dev/mmcblk0"), "p");
    assert_eq!(partition_separator("/dev/loop7"), "p");
}

#[test]
fn letter_suffixed_devices_use_no_separator() {
    assert_eq!(partition_separator("/dev/sdb"), "");
    assert_eq!(partition_separator("/dev/vda"), "");
    assert_eq!(partition_separator(""), "");
}

#[test]
fn partition_paths_for_both_naming_families() {
    assert_eq!(partition_path("/dev/nvme0n1", "2"), "/dev/nvme0n1p2");
    assert_eq!(partition_path("/dev/nvme0n1", "3"), "/dev/nvme0n1p3");
    assert_eq!(partition_path("/dev/sdb", "2"), "/dev/sdb2");
    assert_eq!(partition_path("/dev/sdb", "3"), "/dev/sdb3");
}

#[test]
fn direct_escalation_uses_pkexec() {
    let args = vec!["-c".to_string(), "true".to_string()];
    let spec = privileged_command(false, "bash", &args);
    assert_eq!(spec.program, "pkexec");
    assert_eq!(spec.args, vec!["bash", "-c", "true"]);
}

#[test]
fn sandboxed_escalation_escapes_through_the_host() {
    let args = vec!["-c".to_string(), "true".to_string()];
    let spec = privileged_command(true, "bash", &args);
    assert_eq!(spec.program, "flatpak-spawn");
    assert_eq!(spec.args, vec!["--host", "pkexec", "bash", "-c", "true"]);
}

#[test]
fn escalation_of_a_bare_program() {
    let spec = privileged_command(false, "wipefs", &Vec::new());
    assert_eq!(spec.program, "pkexec");
    assert_eq!(spec.args, vec!["wipefs"]);
}

#[test]
fn sandbox_detection_runs_outside_a_sandbox() {
    assert!(!is_flatpak());
}

#[test]
fn cloned_argument_vectors_are_equal() {
    let args = vec!["a".to_string(), "b c".to_string(), "".to_string()];
    assert_eq!(clone_strings(&args), args);
}

#[test]
fn trimming_strips_surrounding_whitespace() {
    assert_eq!(trim_spaces("  SanDisk Ultra \t\n"), "SanDisk Ultra");
    assert_eq!(trim_spaces("plain"), "plain");
    assert_eq!(trim_spaces("   "), "");
    assert_eq!(trim_spaces(""), "");
}

#[test]
fn lexicographic_order_on_paths() {
    assert!(str_lex_lt("/dev/sda", "/dev/sdb"));
    assert!(str_lex_lt("", "/dev/sda"));
    assert!(str_lex_lt("/dev/sd", "/dev/sda"));
    assert!(!str_lex_lt("/dev/sdb", "/dev/sda"));
    assert!(!str_lex_lt("/dev/sda", "/dev/sda"));
}

#[test]
fn decimal_rendering() {
    assert_eq!(u32_to_decimal(0), "0");
    assert_eq!(u32_to_decimal(207), "207");
    assert_eq!(u32_to_decimal(4294967295), "4294967295");
    assert_eq!(i32_to_decimal(0), "0");
    assert_eq!(i32_to_decimal(-7), "-7");
    assert_eq!(i32_to_decimal(2147483647), "2147483647");
    assert_eq!(i32_to_decimal(-2147483648), "-2147483648");
}
