use bootc_media_creator::flasher::{
    flash_plan, flash_script, outcome_of_run, validate_request, FlashRequest, ProvisioningOutcome,
    ValidationError,
};
use bootc_media_creator::utils::{command_result, CommandError};

fn request(image_ref: &str, device_path: &str) -> FlashRequest {
    FlashRequest {
        image_ref: image_ref.to_string(),
        device_path: device_path.to_string(),
    }
}

#[test]
fn plan_succeeds_on_clean_request() {
    let req = request("registry.example/os:latest", "/dev/sdb");
    let plan = flash_plan(&req).unwrap();
    assert_eq!(plan.program, "bash");
    assert_eq!(plan.args.len(), 2);
    assert_eq!(plan.args[0], "-c");
}

#[test]
fn composed_script_references_unseparated_partitions() {
    let req = request("registry.example/os:latest", "/dev/sdb");
    let plan = flash_plan(&req).unwrap();
    let script = &plan.args[1];
    assert!(script.contains("DEVICE=\"/dev/sdb\""));
    assert!(script.contains("IMAGE=\"registry.example/os:latest\""));
    assert!(script.contains("/dev/sdb2"));
    assert!(script.contains("/dev/sdb3"));
    assert!(!script.contains("/dev/sdbp2"));
    assert!(!script.contains("/dev/sdbp3"));
}

#[test]
fn composed_script_references_separated_partitions() {
    let req = request("registry.example/os:latest", "/dev/nvme0n1");
    let plan = flash_plan(&req).unwrap();
    let script = &plan.args[1];
    assert!(script.contains("P_EFI=\"/dev/nvme0n1p2\""));
    assert!(script.contains("P_ROOT=\"/dev/nvme0n1p3\""));
}

#[test]
fn composed_script_orders_the_steps() {
    let script = flash_script("registry.example/os:latest", "/dev/sdb");
    let wipe = script.find("wipefs -a").unwrap();
    let partition = script.find("sfdisk").unwrap();
    let settle = script.find("udevadm settle").unwrap();
    let format_efi = script.find("mkfs.fat").unwrap();
    let format_root = script.find("mkfs.xfs").unwrap();
    let mount_root = script.find("mount \"$P_ROOT\"").unwrap();
    let mount_efi = script.find("mount \"$P_EFI\"").unwrap();
    let tool_check = script.find("command -v bootc").unwrap();
    let install = script.find("bootc install to-filesystem").unwrap();
    let unmount = script.rfind("umount -R \"$MOUNT_POINT\"").unwrap();
    assert!(wipe < partition);
    assert!(partition < settle);
    assert!(settle < format_efi);
    assert!(format_efi < format_root);
    assert!(format_root < mount_root);
    assert!(mount_root < mount_efi);
    assert!(mount_efi < tool_check);
    assert!(tool_check < install);
    assert!(install < unmount);
}

#[test]
fn composed_script_is_fail_fast_and_cleans_up_mounts() {
    let script = flash_script("registry.example/os:latest", "/dev/sdb");
    assert!(script.starts_with("set -e\n"));
    let trap = script.find("trap 'umount -R").unwrap();
    let first_mount = script.find("mount \"$P_ROOT\"").unwrap();
    assert!(trap < first_mount);
}

#[test]
fn composed_script_has_three_gpt_partitions_in_order() {
    let script = flash_script("registry.example/os:latest", "/dev/sdb");
    assert!(script.contains("label: gpt"));
    let bios = script.find("size=1MiB, bootable, type=21686148-6449-6E6F-744E-656564454649").unwrap();
    let efi = script.find("size=512MiB, type=C12A7328-F81F-11D2-BA4B-00A0C93EC93B").unwrap();
    let root = script.find("type=4F68BCE3-E8CD-4DB1-96E7-FBCAF984B709").unwrap();
    assert!(bios < efi);
    assert!(efi < root);
}

#[test]
fn quote_in_image_is_rejected() {
    let req = request("x\"; rm -rf /", "/dev/sdb");
    assert!(flash_plan(&req).is_err());
    assert!(validate_request(&req).is_err());
}

#[test]
fn dollar_in_image_is_rejected() {
    let req = request("$(reboot)", "/dev/sdb");
    assert!(flash_plan(&req).is_err());
}

#[test]
fn quote_in_device_is_rejected() {
    let req = request("registry.example/os:latest", "/dev/sd\"b");
    assert!(flash_plan(&req).is_err());
}

#[test]
fn dollar_in_device_is_rejected() {
    let req = request("registry.example/os:latest", "/dev/sd$b");
    assert!(flash_plan(&req).is_err());
}

#[test]
fn validation_error_message_text() {
    let e = ValidationError {};
    assert_eq!(e.message(), "Invalid characters in input");
}

#[test]
fn successful_run_maps_to_success() {
    let outcome = outcome_of_run(Ok(()));
    assert!(matches!(outcome, ProvisioningOutcome::Success));
}

#[test]
fn failed_run_maps_to_failure_with_message() {
    let run = command_result("bash", &vec!["-c".to_string(), "false".to_string()], Some(1));
    match outcome_of_run(run) {
        ProvisioningOutcome::Failure(message) => {
            assert_eq!(message, "Command bash failed with exit status 1");
        }
        ProvisioningOutcome::Success => panic!("expected a failure"),
    }
}

#[test]
fn zero_exit_status_is_ok() {
    assert!(command_result("wipefs", &Vec::new(), Some(0)).is_ok());
}

#[test]
fn missing_status_is_a_spawn_failure() {
    let err = command_result("wipefs", &Vec::new(), None).unwrap_err();
    assert_eq!(err.message(), "Failed to run command: wipefs");
    assert_eq!(err.status, None);
}

#[test]
fn nonzero_exit_status_keeps_program_and_args() {
    let args = vec!["-a".to_string(), "/dev/sdb".to_string()];
    let err: CommandError = command_result("wipefs", &args, Some(32)).unwrap_err();
    assert_eq!(err.program, "wipefs");
    assert_eq!(err.args, args);
    assert_eq!(err.status, Some(32));
    assert_eq!(err.message(), "Command wipefs failed with exit status 32");
}

#[test]
fn negative_exit_status_message() {
    let err = command_result("bash", &Vec::new(), Some(-7)).unwrap_err();
    assert_eq!(err.message(), "Command bash failed with exit status -7");
}
