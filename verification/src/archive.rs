//! Telling how a downloaded blob is packed, and which entry of an archive
//! is the firmware. Unpacking itself is left to the caller.

use vstd::prelude::*;

verus! {

/// The name of the firmware inside an archive.
pub const FIRMWARE_FILENAME: &'static str = "firmware.bin";

/// How a blob is packed.
#[derive(Clone, Copy, Debug, PartialEq, Eq, Structural)]
pub enum ArchiveKind {
    /// Not packed: the blob is the firmware.
    Raw,
    /// A gzip stream, which holds a tar archive.
    Gzip,
    /// A zstd stream, which holds a tar archive.
    Zstd,
    /// A tar archive.
    Tar,
}

/// The blob starts with the two bytes of a gzip stream.
pub open spec fn is_gzip(data: Seq<u8>) -> bool {
    data.len() >= 2 && data[0] == 0x1F && data[1] == 0x8B
}

/// The blob starts with the four bytes of a zstd frame.
pub open spec fn is_zstd(data: Seq<u8>) -> bool {
    data.len() >= 4 && data[0] == 0x28 && data[1] == 0xB5 && data[2] == 0x2F && data[3] == 0xFD
}

/// The blob carries `ustar` where the header of a tar archive does.
pub open spec fn is_tar(data: Seq<u8>) -> bool {
    data.len() >= 262 && data[257] == 0x75 && data[258] == 0x73 && data[259] == 0x74 && data[260]
        == 0x61 && data[261] == 0x72
}

/// How a blob is packed. Gzip is looked for first, then zstd, then tar.
pub open spec fn kind_of(data: Seq<u8>) -> ArchiveKind {
    if is_gzip(data) {
        ArchiveKind::Gzip
    } else if is_zstd(data) {
        ArchiveKind::Zstd
    } else if is_tar(data) {
        ArchiveKind::Tar
    } else {
        ArchiveKind::Raw
    }
}

/// Tells how a blob is packed, from its first bytes.
pub fn archive_kind(data: &[u8]) -> (kind: ArchiveKind)
    ensures
        kind == kind_of(data@),
{
    let n = data.len();
    if n >= 2 && data[0] == 0x1F && data[1] == 0x8B {
        ArchiveKind::Gzip
    } else if n >= 4 && data[0] == 0x28 && data[1] == 0xB5 && data[2] == 0x2F && data[3] == 0xFD {
        ArchiveKind::Zstd
    } else if n >= 262 && data[257] == 0x75 && data[258] == 0x73 && data[259] == 0x74 && data[260]
        == 0x61 && data[261] == 0x72 {
        ArchiveKind::Tar
    } else {
        ArchiveKind::Raw
    }
}

/// Whether a path ends with the given components, as `std::path::Path`
/// reads both.
pub uninterp spec fn path_ends_with(path: Seq<char>, child: Seq<char>) -> bool;

/// `std::path::Path::ends_with`. Trusted: the answer is a function of the
/// two texts alone.
#[verifier::external_body]
fn ends_with_path(path: &str, child: &str) -> (r: bool)
    ensures
        r == path_ends_with(path@, child@),
{
    std::path::Path::new(path).ends_with(child)
}

/// Whether the archive entry at this path is the firmware: its last
/// component is the firmware's file name.
pub fn is_firmware_entry(path: &str) -> (r: bool)
    ensures
        r == path_ends_with(path@, FIRMWARE_FILENAME@),
{
    ends_with_path(path, FIRMWARE_FILENAME)
}

} // verus!
