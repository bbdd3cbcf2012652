//! The provisioning pipeline: validate a flash request, compose the
//! ordered provisioning script for its target device, and wrap it in the
//! command that a privileged shell runs.
//!
//! The script wipes the device, writes a fresh GPT layout (BIOS-boot, EFI
//! system, root), waits for the new partition nodes, formats and mounts
//! the filesystems, verifies the image-installation tool is present,
//! installs the image, and unmounts. It runs fail-fast under one
//! privilege escalation; a trap unmounts the transient mount point when
//! any step after the mount fails.

use vstd::prelude::*;
use crate::layout::{spec_partition_path, partition_path};
use crate::utils::{CommandSpec, CommandError, spec_command_error_message};

verus! {

/// A character that could break out of a quoted fragment of the generated
/// script: a double quote or a variable-expansion sigil.
pub open spec fn is_unsafe_char(c: char) -> bool {
    c == '"' || c == '$'
}

/// Whether a string holds any character unsafe to interpolate.
pub open spec fn has_unsafe_char(s: Seq<char>) -> bool {
    exists|i: int| 0 <= i < s.len() && is_unsafe_char(s[i])
}

/// A string built from two halves free of unsafe characters is itself
/// free of them.
pub proof fn lemma_concat_keeps_safety(a: Seq<char>, b: Seq<char>)
    requires
        !has_unsafe_char(a),
        !has_unsafe_char(b),
    ensures
        !has_unsafe_char(a + b),
{
    assert forall|i: int| 0 <= i < (a + b).len() implies !is_unsafe_char((a + b)[i]) by {
        if i < a.len() {
            assert((a + b)[i] == a[i]);
        } else {
            assert((a + b)[i] == b[i - a.len()]);
        }
    }
}

/// An immutable provisioning request: the image to install and the device
/// to install it onto.
pub struct FlashRequest {
    pub image_ref: String,
    pub device_path: String,
}

impl FlashRequest {
    /// A request may only be acted on when neither field could break out
    /// of the quoted fragments it is interpolated into.
    pub open spec fn valid(&self) -> bool {
        !has_unsafe_char(self.image_ref@) && !has_unsafe_char(self.device_path@)
    }
}

/// A request that was rejected before anything was done with it.
#[derive(Debug)]
pub struct ValidationError {}

impl ValidationError {
    /// The human-readable text a rejected request is surfaced with.
    pub fn message(&self) -> (r: String)
        ensures
            r@ == "Invalid characters in input"@,
    {
        let mut r = String::new();
        r.append("Invalid characters in input");
        r
    }
}

/// The terminal result of one provisioning attempt.
#[derive(Debug)]
pub enum ProvisioningOutcome {
    Success,
    Failure(String),
}

/// The partition paths a valid request derives stay free of unsafe
/// characters: nothing interpolated into the script of a valid request
/// can break out of its quoted fragment.
pub proof fn lemma_valid_request_interpolates_safely(request: FlashRequest)
    requires
        request.valid(),
    ensures
        !has_unsafe_char(spec_partition_path(request.device_path@, "2"@)),
        !has_unsafe_char(spec_partition_path(request.device_path@, "3"@)),
{
    reveal_strlit("p");
    reveal_strlit("");
    reveal_strlit("2");
    reveal_strlit("3");
    let device = request.device_path@;
    let sep = crate::layout::spec_partition_separator(device);
    assert(!has_unsafe_char(sep));
    assert(!has_unsafe_char("2"@));
    assert(!has_unsafe_char("3"@));
    lemma_concat_keeps_safety(device, sep);
    lemma_concat_keeps_safety(device + sep, "2"@);
    lemma_concat_keeps_safety(device + sep, "3"@);
}

/// Scan a string for characters unsafe to interpolate.
pub fn contains_unsafe_char(s: &str) -> (r: bool)
    ensures
        r == has_unsafe_char(s@),
{
    let len = s.unicode_len();
    let mut i: usize = 0;
    while i < len
        invariant
            0 <= i <= len,
            len == s@.len(),
            forall|k: int| 0 <= k < i ==> !is_unsafe_char(s@[k]),
        decreases len - i,
    {
        let c = s.get_char(i);
        if c == '"' || c == '$' {
            assert(is_unsafe_char(s@[i as int]));
            return true;
        }
        i = i + 1;
    }
    false
}

/// Reject a request whose fields could escape the generated script.
pub fn validate_request(request: &FlashRequest) -> (r: Result<(), ValidationError>)
    ensures
        r is Ok <==> request.valid(),
{
    if contains_unsafe_char(request.image_ref.as_str()) {
        Err(ValidationError {})
    } else if contains_unsafe_char(request.device_path.as_str()) {
        Err(ValidationError {})
    } else {
        Ok(())
    }
}

/// The opening of the script: fail-fast mode, then the device path.
pub const SCRIPT_DEVICE: &'static str = "set -e\nDEVICE=\"";

/// Between the device path and the image reference.
pub const SCRIPT_IMAGE: &'static str = "\"\nIMAGE=\"";

/// Between the image reference and the EFI partition path.
pub const SCRIPT_EFI: &'static str = "\"\nP_EFI=\"";

/// Between the EFI partition path and the root partition path.
pub const SCRIPT_ROOT: &'static str = "\"\nP_ROOT=\"";

/// The fixed remainder: the ordered wipe, partition, settle, format,
/// mount, verify-tool, install, unmount sequence, with a trap that
/// unmounts the transient mount point when a later step fails.
pub const SCRIPT_BODY: &'static str = "\"\nMOUNT_POINT=\"/run/bootc-media-creator/mnt\"\n\ntrap 'umount -R \"$MOUNT_POINT\" > /dev/null 2>&1 || true' ERR\n\necho \"Wiping filesystem signatures on $DEVICE...\"\nwipefs -a \"$DEVICE\"\n\necho \"Partitioning $DEVICE...\"\nsfdisk \"$DEVICE\" <<EOF\nlabel: gpt\nsize=1MiB, bootable, type=21686148-6449-6E6F-744E-656564454649, name=\"BIOS-BOOT\"\nsize=512MiB, type=C12A7328-F81F-11D2-BA4B-00A0C93EC93B, name=\"EFI-SYSTEM\"\ntype=4F68BCE3-E8CD-4DB1-96E7-FBCAF984B709, name=\"root\"\nEOF\n\nudevadm settle\n\necho \"Formatting EFI ($P_EFI)...\"\nmkfs.fat -F 32 -n EFI-SYSTEM \"$P_EFI\"\n\necho \"Formatting root ($P_ROOT)...\"\nmkfs.xfs -f -L root \"$P_ROOT\"\n\necho \"Mounting...\"\nmkdir -p \"$MOUNT_POINT\"\nmount \"$P_ROOT\" \"$MOUNT_POINT\"\nmkdir -p \"$MOUNT_POINT/boot/efi\"\nmount \"$P_EFI\" \"$MOUNT_POINT/boot/efi\"\n\nif ! command -v bootc > /dev/null 2>&1; then\n    echo \"bootc command not found\"\n    false\nfi\n\necho \"Installing bootc image...\"\nbootc install to-filesystem --source \"$IMAGE\" --skip-fetch-check \"$MOUNT_POINT\"\n\necho \"Unmounting...\"\numount -R \"$MOUNT_POINT\"\necho \"Done!\"\n";

/// The provisioning script for one request: the device path, image
/// reference, and the two derived partition paths interpolated into the
/// fixed command sequence.
pub open spec fn spec_flash_script(image: Seq<char>, device: Seq<char>) -> Seq<char> {
    SCRIPT_DEVICE@ + device + SCRIPT_IMAGE@ + image + SCRIPT_EFI@ + spec_partition_path(
        device,
        "2"@,
    ) + SCRIPT_ROOT@ + spec_partition_path(device, "3"@) + SCRIPT_BODY@
}

/// Compose the provisioning script for a request's image and device.
pub fn flash_script(image_ref: &str, device_path: &str) -> (r: String)
    ensures
        r@ == spec_flash_script(image_ref@, device_path@),
{
    let efi = partition_path(device_path, "2");
    let root = partition_path(device_path, "3");
    let mut s = String::new();
    s.append(SCRIPT_DEVICE);
    s.append(device_path);
    s.append(SCRIPT_IMAGE);
    s.append(image_ref);
    s.append(SCRIPT_EFI);
    s.append(efi.as_str());
    s.append(SCRIPT_ROOT);
    s.append(root.as_str());
    s.append(SCRIPT_BODY);
    assert(s@ =~= spec_flash_script(image_ref@, device_path@));
    s
}

/// Plan one provisioning attempt: reject a request with unsafe characters
/// before anything is interpolated, and otherwise hand back the shell
/// command that runs the composed script.
pub fn flash_plan(request: &FlashRequest) -> (r: Result<CommandSpec, ValidationError>)
    ensures
        r is Ok <==> request.valid(),
        r is Ok ==> r->Ok_0.program@ == "bash"@,
        r is Ok ==> r->Ok_0.args.deep_view() == seq![
            "-c"@,
            spec_flash_script(request.image_ref@, request.device_path@),
        ],
{
    if let Err(e) = validate_request(request) {
        return Err(e);
    }
    let script = flash_script(request.image_ref.as_str(), request.device_path.as_str());
    let mut args: Vec<String> = Vec::new();
    args.push(String::from_str("-c"));
    args.push(script);
    proof {
        assert(args.deep_view() =~= seq![
            "-c"@,
            spec_flash_script(request.image_ref@, request.device_path@),
        ]);
    }
    Ok(CommandSpec { program: String::from_str("bash"), args })
}

/// Map the result of running the privileged script to the terminal
/// outcome of the provisioning attempt.
pub fn outcome_of_run(run: Result<(), CommandError>) -> (o: ProvisioningOutcome)
    ensures
        run is Ok <==> o is Success,
        run is Err ==> (o matches ProvisioningOutcome::Failure(m) && m@
            == spec_command_error_message(run->Err_0.program@, run->Err_0.status)),
{
    match run {
        Ok(()) => ProvisioningOutcome::Success,
        Err(e) => ProvisioningOutcome::Failure(e.message()),
    }
}

} // verus!
