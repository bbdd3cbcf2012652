//! Layout planning: the partition-naming scheme for a device path.
//!
//! Devices whose base name ends in a decimal digit (NVMe- or MMC-style
//! enumeration) name their partitions with a `p` separator before the
//! partition number; all others append the number directly.

use vstd::prelude::*;

verus! {

/// A decimal digit, the character class that decides the naming scheme.
pub open spec fn is_decimal_digit(c: char) -> bool {
    '0' <= c && c <= '9'
}

/// The separator a device path calls for: `p` when the path ends in a
/// decimal digit, empty otherwise.
pub open spec fn spec_partition_separator(path: Seq<char>) -> Seq<char> {
    if path.len() > 0 && is_decimal_digit(path[path.len() - 1]) {
        "p"@
    } else {
        ""@
    }
}

/// The path of partition `number` on the device: the device path, the
/// separator the device calls for, then the partition number.
pub open spec fn spec_partition_path(device: Seq<char>, number: Seq<char>) -> Seq<char> {
    device + spec_partition_separator(device) + number
}

/// Every device path that ends in a decimal digit takes the `p`
/// separator; every other path, the empty one.
pub proof fn lemma_separator_families(path: Seq<char>)
    ensures
        path.len() > 0 && is_decimal_digit(path[path.len() - 1]) ==> spec_partition_separator(path)
            == "p"@,
        path.len() == 0 || !is_decimal_digit(path[path.len() - 1]) ==> spec_partition_separator(
            path,
        ) == ""@,
{
}

/// Decide the partition-number separator for a device path.
pub fn partition_separator(device_path: &str) -> (r: &'static str)
    ensures
        r@ == spec_partition_separator(device_path@),
{
    let n = device_path.unicode_len();
    if n > 0 {
        let c = device_path.get_char(n - 1);
        if '0' <= c && c <= '9' {
            "p"
        } else {
            ""
        }
    } else {
        ""
    }
}

/// Build the path of one numbered partition of the device.
pub fn partition_path(device_path: &str, number: &str) -> (r: String)
    ensures
        r@ == spec_partition_path(device_path@, number@),
{
    let mut r = String::new();
    r.append(device_path);
    r.append(partition_separator(device_path));
    r.append(number);
    r
}

} // verus!
