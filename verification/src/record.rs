//! The unit that the cache holds: one firmware payload with what describes it.

use crate::checksum::crc32;
use crate::version::{SemVer, SemVerView};
use std::sync::Arc;
use vstd::prelude::*;

verus! {

/// The mathematical value of a firmware record.
pub struct RecordView {
    pub version: SemVerView,
    pub size: nat,
    pub crc: u32,
    pub binary: Seq<u8>,
    pub manifest_digest: Seq<char>,
}

/// The record that describes a payload: its size is the payload's length and
/// its checksum the payload's CRC-32.
pub open spec fn record_of(
    version: SemVerView,
    binary: Seq<u8>,
    manifest_digest: Seq<char>,
) -> RecordView {
    RecordView {
        version,
        size: binary.len(),
        crc: crc32(binary),
        binary,
        manifest_digest,
    }
}

/// Size and checksum are those of the payload.
pub open spec fn consistent(r: RecordView) -> bool {
    &&& r.size == r.binary.len()
    &&& r.crc == crc32(r.binary)
}

/// One firmware artifact as it was fetched: the payload, its version, and the
/// digest of the manifest it came with. It does not change once it is made.
#[derive(Debug)]
pub struct FirmwareInfo {
    binary: Vec<u8>,
    crc: u32,
    version: SemVer,
    size: usize,
    manifest_digest: String,
}

impl View for FirmwareInfo {
    type V = RecordView;

    closed spec fn view(&self) -> RecordView {
        RecordView {
            version: self.version@,
            size: self.size as nat,
            crc: self.crc,
            binary: self.binary@,
            manifest_digest: self.manifest_digest@,
        }
    }
}

impl FirmwareInfo {
    /// Holds of every record: size and checksum are those of its payload.
    #[verifier::type_invariant]
    pub open spec fn describes_payload(&self) -> bool {
        consistent(self@)
    }

    /// Makes the record of a payload: measures it and computes its checksum.
    pub fn new(version: SemVer, binary: Vec<u8>, manifest_digest: String) -> (r: FirmwareInfo)
        ensures
            r@ == record_of(version@, binary@, manifest_digest@),
            consistent(r@),
    {
        let crc = crc32fast::hash(binary.as_slice());
        let size = binary.len();
        FirmwareInfo { binary, crc, version, size, manifest_digest }
    }

    /// The payload.
    pub fn binary(&self) -> (b: &Vec<u8>)
        ensures
            b@ == self@.binary,
            consistent(self@),
    {
        proof {
            use_type_invariant(self);
        }
        &self.binary
    }

    /// The CRC-32 of the payload.
    pub fn crc(&self) -> (c: u32)
        ensures
            c == self@.crc,
            consistent(self@),
    {
        proof {
            use_type_invariant(self);
        }
        self.crc
    }

    /// The version that the payload was published under.
    pub fn version(&self) -> (v: &SemVer)
        ensures
            v@ == self@.version,
    {
        &self.version
    }

    /// The length of the payload in bytes.
    pub fn size(&self) -> (n: usize)
        ensures
            n == self@.size,
            consistent(self@),
    {
        proof {
            use_type_invariant(self);
        }
        self.size
    }

    /// The digest of the manifest that the payload was fetched with.
    pub fn manifest_digest(&self) -> (d: &str)
        ensures
            d@ == self@.manifest_digest,
    {
        self.manifest_digest.as_str()
    }
}

/// `Arc::clone`. Trusted: the new handle points at the same record.
#[verifier::external_body]
pub(crate) fn share(record: &Arc<FirmwareInfo>) -> (r: Arc<FirmwareInfo>)
    ensures
        r == record,
{
    Arc::clone(record)
}

} // verus!
