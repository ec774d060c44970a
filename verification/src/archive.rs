//! Recognising the compressed tarballs that `Archive` entries point to.
use vstd::prelude::*;

verus! {

/// The compression of an archive, as told by its first bytes.
#[derive(Clone, Copy, Debug, PartialEq, Eq, Structural)]
pub enum ArchiveType {
    Gz,
    Xz,
    Unknown,
}

/// The gzip magic number is `1F 8B`; the xz one is `FD 37 7A 58 5A 00`.
pub open spec fn spec_detect_type(b: Seq<u8>) -> ArchiveType {
    if b.len() >= 2 && b[0] == 0x1f && b[1] == 0x8b {
        ArchiveType::Gz
    } else if b.len() >= 6 && b[0] == 0xfd && b[1] == 0x37 && b[2] == 0x7a && b[3] == 0x58
        && b[4] == 0x5a && b[5] == 0x00 {
        ArchiveType::Xz
    } else {
        ArchiveType::Unknown
    }
}

/// Tells the archive type from the first bytes of a download.
pub fn detect_type(bytes: &[u8]) -> (r: ArchiveType)
    ensures
        r == spec_detect_type(bytes@),
{
    if bytes.len() >= 2 && bytes[0] == 0x1f && bytes[1] == 0x8b {
        ArchiveType::Gz
    } else if bytes.len() >= 6 && bytes[0] == 0xfd && bytes[1] == 0x37 && bytes[2] == 0x7a
        && bytes[3] == 0x58 && bytes[4] == 0x5a && bytes[5] == 0x00 {
        ArchiveType::Xz
    } else {
        ArchiveType::Unknown
    }
}

/// The decompressor that a tarball is read through before unpacking.
#[derive(Clone, Copy, Debug, PartialEq, Eq, Structural)]
pub enum Codec {
    Gzip,
    Xz,
}

/// Why an archive cannot be unpacked.
#[derive(Clone, Copy, Debug, PartialEq, Eq, Structural)]
pub enum ArchiveError {
    UnknownType,
}

impl ArchiveError {
    /// The text reported for the error.
    pub fn message(&self) -> (r: String)
        ensures
            r@ == "unknown archive type"@,
    {
        String::from_str("unknown archive type")
    }
}

/// How an archive of the given type is unpacked: gzip and xz tarballs are
/// read through their decompressor; an unknown type is refused.
pub fn codec_for(archive_type: ArchiveType) -> (r: Result<Codec, ArchiveError>)
    ensures
        r == match archive_type {
            ArchiveType::Gz => Ok::<Codec, ArchiveError>(Codec::Gzip),
            ArchiveType::Xz => Ok(Codec::Xz),
            ArchiveType::Unknown => Err(ArchiveError::UnknownType),
        },
{
    match archive_type {
        ArchiveType::Gz => Ok(Codec::Gzip),
        ArchiveType::Xz => Ok(Codec::Xz),
        ArchiveType::Unknown => Err(ArchiveError::UnknownType),
    }
}

} // verus!
