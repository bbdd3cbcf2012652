//! Device enumeration: turn what was probed from the storage-management
//! service into an ordered list of candidate target devices.
//!
//! The surrounding binary queries the service and hands over one
//! `DriveProbe` of plain values per managed object; everything decided
//! about them — eligibility, label resolution, ordering — happens here.

use vstd::prelude::*;
use vstd::utf8::{valid_utf8, decode_utf8};
use crate::text::{spec_trim, trim_spaces, lex_lt, str_lex_lt};
use crate::text::{lemma_lex_lt_trichotomy, lemma_lex_lt_transitive};

verus! {

/// What one storage-service object looked like when it was probed:
/// whether it exposes the drive facet, whether the drive reports itself
/// removable (`None` when removability is unknown), the path of its
/// primary block device if one resolves, and the metadata the label is
/// resolved from. A field is `None` whenever the corresponding query
/// failed; such failures degrade per device and never abort a batch.
#[derive(Debug)]
pub struct DriveProbe {
    pub is_drive: bool,
    pub removable: Option<bool>,
    pub block_path: Option<String>,
    pub fs_label: Option<String>,
    pub partition_names: Vec<String>,
    pub vendor: Option<String>,
    pub model: Option<String>,
}

/// The mathematical value of a `DriveProbe`.
pub ghost struct DriveProbeView {
    pub is_drive: bool,
    pub removable: Option<bool>,
    pub block_path: Option<Seq<char>>,
    pub fs_label: Option<Seq<char>>,
    pub partition_names: Seq<Seq<char>>,
    pub vendor: Option<Seq<char>>,
    pub model: Option<Seq<char>>,
}

impl View for DriveProbe {
    type V = DriveProbeView;

    open spec fn view(&self) -> DriveProbeView {
        DriveProbeView {
            is_drive: self.is_drive,
            removable: self.removable,
            block_path: self.block_path.deep_view(),
            fs_label: self.fs_label.deep_view(),
            partition_names: self.partition_names.deep_view(),
            vendor: self.vendor.deep_view(),
            model: self.model.deep_view(),
        }
    }
}

impl DeepView for DriveProbe {
    type V = DriveProbeView;

    open spec fn deep_view(&self) -> DriveProbeView {
        self.view()
    }
}

/// One candidate target device: its block-device path, the resolved
/// human-readable name it is presented under, and the raw metadata the
/// name was resolved from.
#[derive(Debug)]
pub struct StorageDevice {
    pub path: String,
    pub display_name: String,
    pub fs_label: Option<String>,
    pub vendor_model: Option<String>,
}

/// The mathematical value of a `StorageDevice`.
pub ghost struct StorageDeviceView {
    pub path: Seq<char>,
    pub display_name: Seq<char>,
    pub fs_label: Option<Seq<char>>,
    pub vendor_model: Option<Seq<char>>,
}

impl View for StorageDevice {
    type V = StorageDeviceView;

    open spec fn view(&self) -> StorageDeviceView {
        StorageDeviceView {
            path: self.path@,
            display_name: self.display_name@,
            fs_label: self.fs_label.deep_view(),
            vendor_model: self.vendor_model.deep_view(),
        }
    }
}

impl DeepView for StorageDevice {
    type V = StorageDeviceView;

    open spec fn deep_view(&self) -> StorageDeviceView {
        self.view()
    }
}

/// The enumeration could not run at all: the storage-management service
/// was unreachable. Everything smaller degrades per device instead.
#[derive(Debug)]
pub struct EnumerationError {
    pub message: String,
}

// ---------------------------------------------------------------------------
// Label resolution
// ---------------------------------------------------------------------------

/// The vendor-and-model string of a drive, trimmed of surrounding
/// whitespace.
pub open spec fn spec_vendor_model(vendor: Seq<char>, model: Seq<char>) -> Seq<char> {
    spec_trim(vendor + " "@ + model)
}

/// The highest-precedence raw label: the block device's own filesystem
/// label, else the first partition name found in table order, else none.
pub open spec fn spec_base_label(p: DriveProbeView) -> Option<Seq<char>> {
    if p.fs_label is Some {
        p.fs_label
    } else if p.partition_names.len() > 0 {
        Some(p.partition_names[0])
    } else {
        None
    }
}

/// The drive's vendor/model string, when both resolve.
pub open spec fn spec_probe_vendor_model(p: DriveProbeView) -> Option<Seq<char>> {
    if p.vendor is Some && p.model is Some {
        Some(spec_vendor_model(p.vendor->Some_0, p.model->Some_0))
    } else {
        None
    }
}

/// The resolved display label of a device: the raw label with the
/// vendor/model appended in parentheses when both are available, either
/// alone when only one is, and `Unknown` when neither is.
pub open spec fn spec_device_label(p: DriveProbeView) -> Seq<char> {
    match spec_base_label(p) {
        Some(base) => match spec_probe_vendor_model(p) {
            Some(vm) => base + " ("@ + vm + ")"@,
            None => base,
        },
        None => match spec_probe_vendor_model(p) {
            Some(vm) => vm,
            None => "Unknown"@,
        },
    }
}

/// The drive's trimmed vendor/model string, when both resolve.
fn probe_vendor_model(probe: &DriveProbe) -> (r: Option<String>)
    ensures
        r.deep_view() == spec_probe_vendor_model(probe@),
{
    match (&probe.vendor, &probe.model) {
        (Some(vendor), Some(model)) => {
            let mut joined = String::new();
            joined.append(vendor.as_str());
            joined.append(" ");
            joined.append(model.as_str());
            let trimmed = trim_spaces(joined.as_str());
            Some(String::from_str(trimmed))
        },
        _ => None,
    }
}

/// Resolve the display label of one probed device.
pub fn device_label(probe: &DriveProbe) -> (r: String)
    ensures
        r@ == spec_device_label(probe@),
{
    let vm = probe_vendor_model(probe);
    let base: Option<&String> = if probe.fs_label.is_some() {
        probe.fs_label.as_ref()
    } else if probe.partition_names.len() > 0 {
        Some(&probe.partition_names[0])
    } else {
        None
    };
    match base {
        Some(base_label) => match vm {
            Some(vm_text) => {
                let mut r = String::new();
                r.append(base_label.as_str());
                r.append(" (");
                r.append(vm_text.as_str());
                r.append(")");
                r
            },
            None => base_label.clone(),
        },
        None => match vm {
            Some(vm_text) => vm_text,
            None => {
                let mut r = String::new();
                r.append("Unknown");
                r
            },
        },
    }
}

// ---------------------------------------------------------------------------
// Eligibility and ordering
// ---------------------------------------------------------------------------

/// Whether a probed object is listed: it must be a drive whose primary
/// block device resolved, and it is kept unless it positively reported
/// itself non-removable — unknown removability fails open, since the
/// human confirms the target before anything destructive runs.
pub open spec fn spec_probe_eligible(p: DriveProbeView) -> bool {
    p.is_drive && (p.removable is None || p.removable == Some(true)) && p.block_path is Some
}

/// The listed device a probed object becomes.
pub open spec fn spec_device_of(p: DriveProbeView) -> StorageDeviceView {
    StorageDeviceView {
        path: p.block_path->Some_0,
        display_name: spec_device_label(p),
        fs_label: p.fs_label,
        vendor_model: spec_probe_vendor_model(p),
    }
}

/// A device list in strictly ascending path order; strictness makes each
/// path unique within the list.
pub open spec fn spec_devices_sorted(s: Seq<StorageDeviceView>) -> bool {
    forall|i: int, j: int| 0 <= i < j < s.len() ==> lex_lt(s[i].path, s[j].path)
}

/// Insert a device into a path-ordered list, keeping the first device
/// seen for a path that is already present.
pub open spec fn spec_insert_device(d: StorageDeviceView, s: Seq<StorageDeviceView>) -> Seq<
    StorageDeviceView,
>
    decreases s.len(),
{
    if s.len() == 0 {
        seq![d]
    } else if lex_lt(d.path, s[0].path) {
        seq![d] + s
    } else if d.path == s[0].path {
        s
    } else {
        seq![s[0]] + spec_insert_device(d, s.drop_first())
    }
}

/// The ordered device list one pass over the probed objects produces:
/// each eligible probe's device, in ascending path order.
pub open spec fn spec_enumerate(probes: Seq<DriveProbeView>) -> Seq<StorageDeviceView>
    decreases probes.len(),
{
    if probes.len() == 0 {
        Seq::empty()
    } else {
        let rest = spec_enumerate(probes.drop_last());
        if spec_probe_eligible(probes.last()) {
            spec_insert_device(spec_device_of(probes.last()), rest)
        } else {
            rest
        }
    }
}

proof fn lemma_insert_device_lower_bound(
    d: StorageDeviceView,
    s: Seq<StorageDeviceView>,
    b: Seq<char>,
)
    requires
        lex_lt(b, d.path),
        forall|k: int| 0 <= k < s.len() ==> lex_lt(b, #[trigger] s[k].path),
    ensures
        forall|k: int|
            0 <= k < spec_insert_device(d, s).len() ==> lex_lt(
                b,
                #[trigger] spec_insert_device(d, s)[k].path,
            ),
    decreases s.len(),
{
    if s.len() == 0 {
    } else if lex_lt(d.path, s[0].path) {
    } else if d.path == s[0].path {
    } else {
        assert(forall|k: int|
            0 <= k < s.drop_first().len() ==> lex_lt(b, #[trigger] s.drop_first()[k].path));
        lemma_insert_device_lower_bound(d, s.drop_first(), b);
    }
}

/// Inserting into a strictly path-ordered list keeps it strictly
/// path-ordered.
pub proof fn lemma_insert_device_sorted(d: StorageDeviceView, s: Seq<StorageDeviceView>)
    requires
        spec_devices_sorted(s),
    ensures
        spec_devices_sorted(spec_insert_device(d, s)),
    decreases s.len(),
{
    if s.len() == 0 {
    } else if lex_lt(d.path, s[0].path) {
        let r = seq![d] + s;
        assert forall|i: int, j: int| 0 <= i < j < r.len() implies lex_lt(r[i].path, r[j].path) by {
            if i == 0 {
                if j > 1 {
                    lemma_lex_lt_transitive(d.path, s[0].path, s[j - 1].path);
                }
            }
        }
    } else if d.path == s[0].path {
    } else {
        let rest = s.drop_first();
        assert(spec_devices_sorted(rest)) by {
            assert forall|i: int, j: int| 0 <= i < j < rest.len() implies lex_lt(
                rest[i].path,
                rest[j].path,
            ) by {
                assert(rest[i] == s[i + 1]);
                assert(rest[j] == s[j + 1]);
            }
        }
        lemma_insert_device_sorted(d, rest);
        lemma_lex_lt_trichotomy(d.path, s[0].path);
        assert(lex_lt(s[0].path, d.path));
        assert(forall|k: int| 0 <= k < rest.len() ==> lex_lt(s[0].path, #[trigger] rest[k].path));
        lemma_insert_device_lower_bound(d, rest, s[0].path);
        let r = seq![s[0]] + spec_insert_device(d, rest);
        assert forall|i: int, j: int| 0 <= i < j < r.len() implies lex_lt(r[i].path, r[j].path) by {
            if i > 0 {
                assert(r[i] == spec_insert_device(d, rest)[i - 1]);
                assert(r[j] == spec_insert_device(d, rest)[j - 1]);
            }
        }
    }
}

/// One enumeration pass always yields a strictly path-ordered list.
pub proof fn lemma_enumerate_sorted(probes: Seq<DriveProbeView>)
    ensures
        spec_devices_sorted(spec_enumerate(probes)),
    decreases probes.len(),
{
    if probes.len() > 0 {
        lemma_enumerate_sorted(probes.drop_last());
        if spec_probe_eligible(probes.last()) {
            lemma_insert_device_sorted(spec_device_of(probes.last()), spec_enumerate(probes.drop_last()));
        }
    }
}

/// Listing is idempotent: two passes over the same probed hardware state
/// yield the same ordered device list.
pub proof fn lemma_enumerate_idempotent(a: Seq<DriveProbeView>, b: Seq<DriveProbeView>)
    requires
        a == b,
    ensures
        spec_enumerate(a) == spec_enumerate(b),
{
}

/// Turn one eligible probe into the device it is listed as.
fn device_of(probe: &DriveProbe) -> (r: StorageDevice)
    requires
        spec_probe_eligible(probe@),
    ensures
        r@ == spec_device_of(probe@),
{
    let path = match &probe.block_path {
        Some(p) => p.clone(),
        None => String::new(),
    };
    StorageDevice {
        path,
        display_name: device_label(probe),
        fs_label: probe.fs_label.clone(),
        vendor_model: probe_vendor_model(probe),
    }
}

/// Insert a device into a path-ordered vector.
fn insert_device(d: StorageDevice, v: Vec<StorageDevice>) -> (r: Vec<StorageDevice>)
    ensures
        r.deep_view() == spec_insert_device(d@, v.deep_view()),
    decreases v@.len(),
{
    if v.len() == 0 {
        let mut r = v;
        r.push(d);
        proof {
            assert(r.deep_view() =~= seq![r@[0]@]);
        }
        r
    } else if str_lex_lt(d.path.as_str(), v[0].path.as_str()) {
        let mut r = v;
        r.insert(0, d);
        proof {
            assert(r.deep_view() =~= seq![r@[0]@] + v.deep_view());
        }
        r
    } else if d.path.eq(&v[0].path) {
        proof {
            assert(d@.path == v.deep_view()[0].path);
        }
        v
    } else {
        let mut v = v;
        let ghost v0 = v.deep_view();
        let head = v.remove(0);
        proof {
            assert(v.deep_view() =~= v0.drop_first());
        }
        let r0 = insert_device(d, v);
        let mut r = r0;
        r.insert(0, head);
        proof {
            assert(r.deep_view() =~= seq![head@] + spec_insert_device(d@, v0.drop_first()));
        }
        r
    }
}

/// One enumeration pass: keep the eligible probes, resolve each one's
/// label, and list the devices in ascending path order.
pub fn enumerate_devices(probes: &Vec<DriveProbe>) -> (r: Vec<StorageDevice>)
    ensures
        r.deep_view() == spec_enumerate(probes.deep_view()),
        spec_devices_sorted(r.deep_view()),
{
    let mut out: Vec<StorageDevice> = Vec::new();
    let mut i: usize = 0;
    proof {
        assert(probes.deep_view().take(0) =~= Seq::<DriveProbeView>::empty());
    }
    while i < probes.len()
        invariant
            0 <= i <= probes@.len(),
            probes.deep_view().len() == probes@.len(),
            out.deep_view() == spec_enumerate(probes.deep_view().take(i as int)),
        decreases probes@.len() - i,
    {
        let probe = &probes[i];
        let eligible = probe.is_drive && (match probe.removable {
            Some(removable) => removable,
            None => true,
        }) && probe.block_path.is_some();
        proof {
            let pv = probes.deep_view();
            assert(pv.take(i + 1).drop_last() =~= pv.take(i as int));
            assert(pv.take(i + 1).last() == pv[i as int]);
            assert(pv[i as int] == probe@);
            assert(eligible == spec_probe_eligible(probe@));
        }
        if eligible {
            let d = device_of(probe);
            out = insert_device(d, out);
        }
        i = i + 1;
    }
    proof {
        assert(probes.deep_view().take(probes@.len() as int) =~= probes.deep_view());
        lemma_enumerate_sorted(probes.deep_view());
    }
    out
}

// ---------------------------------------------------------------------------
// Block-device path decoding
// ---------------------------------------------------------------------------

/// Whether a raw preferred-device byte string is well formed: nonempty,
/// terminated by exactly one trailing zero byte, and valid UTF-8 before
/// it.
pub open spec fn spec_display_bytes_ok(b: Seq<u8>) -> bool {
    &&& b.len() > 0
    &&& b.last() == 0u8
    &&& (forall|i: int| 0 <= i < b.len() - 1 ==> b[i] != 0u8)
    &&& valid_utf8(b.take(b.len() - 1))
}

/// The path a well-formed preferred-device byte string denotes.
pub open spec fn spec_display_string(b: Seq<u8>) -> Seq<char> {
    decode_utf8(b.take(b.len() - 1))
}

/// Relies on std's String::from_utf8: it succeeds exactly on valid UTF-8
/// and yields its decoding.
#[verifier::external_body]
fn string_from_utf8(bytes: Vec<u8>) -> (r: Option<String>)
    ensures
        r is Some <==> valid_utf8(bytes@),
        r is Some ==> r->Some_0@ == decode_utf8(bytes@),
{
    String::from_utf8(bytes).ok()
}

/// Decode the display path of a block device from the raw bytes the
/// storage-management service reports: a zero-terminated UTF-8 string.
pub fn preferred_device_display_string(bytes: &Vec<u8>) -> (r: Option<String>)
    ensures
        r is Some <==> spec_display_bytes_ok(bytes@),
        r is Some ==> r->Some_0@ == spec_display_string(bytes@),
{
    let len = bytes.len();
    if len == 0 {
        return None;
    }
    if bytes[len - 1] != 0 {
        return None;
    }
    let mut prefix: Vec<u8> = Vec::new();
    let mut i: usize = 0;
    while i < len - 1
        invariant
            0 <= i <= len - 1,
            len == bytes@.len(),
            bytes@.last() == 0u8,
            prefix@ =~= bytes@.take(i as int),
            forall|k: int| 0 <= k < i ==> bytes@[k] != 0u8,
        decreases len - 1 - i,
    {
        let b = bytes[i];
        if b == 0 {
            return None;
        }
        prefix.push(b);
        i = i + 1;
    }
    proof {
        assert(prefix@ =~= bytes@.take(bytes@.len() - 1));
    }
    string_from_utf8(prefix)
}

} // verus!
