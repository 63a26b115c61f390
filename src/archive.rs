//! The deployment archive: one member, at a fixed name, with normalized metadata.

use vstd::prelude::*;

verus! {

/// Name of the single member that carries the package.
pub const PACKAGE_MEMBER_NAME: &'static str = "package.deb";

/// Permission bits recorded for the member, whatever the source file had.
pub const MEMBER_MODE: u32 = 0o644;

/// Modification time recorded for the member (23 July 2006, the timestamp
/// that tar uses for its deterministic headers).
pub const MEMBER_MTIME: u64 = 1153704088;

/// Length of a tar block; the header of a member with a short name fills one.
pub const TAR_BLOCK_LEN: usize = 512;

/// Whether `data` follows right after the first header block of `archive`.
pub open spec fn member_data_follows_header(archive: Seq<u8>, data: Seq<u8>) -> bool {
    &&& TAR_BLOCK_LEN + data.len() <= archive.len()
    &&& archive.subrange(TAR_BLOCK_LEN as int, TAR_BLOCK_LEN + data.len()) == data
}

/// The bytes of a tar stream holding one regular file `name` with contents
/// `data`, permission bits `mode` and modification time `mtime`.
pub uninterp spec fn tar_single_member(name: Seq<char>, data: Seq<u8>, mode: u32, mtime: u64) -> Seq<u8>;

/// The deployment archive of a package with contents `package`.
pub open spec fn package_archive(package: Seq<u8>) -> Seq<u8> {
    tar_single_member(PACKAGE_MEMBER_NAME@, package, MEMBER_MODE, MEMBER_MTIME)
}

/// Why an archive could not be built.
#[derive(Debug, Clone, Copy, PartialEq, Eq, Structural)]
pub enum ArchiveError {
    /// The tar writer refused the member.
    Build,
}

/// Relies on tar::Builder::append_data, on a header from tar::Header::new_gnu,
/// and on tar::Builder::into_inner: the stream written into memory is a function
/// of the header fields, the member name and the data. A short relative name
/// such as the package member's fits a fresh GNU header, and writing into a
/// `Vec` cannot fail, so that member is always written: its header block
/// first, then its data (`append`), then padding and the end blocks.
#[verifier::external_body]
fn tar_with_one_member(name: &str, data: &[u8], mode: u32, mtime: u64) -> (r: Option<Vec<u8>>)
    ensures
        r matches Some(a) ==> a@ == tar_single_member(name@, data@, mode, mtime),
        name@ == PACKAGE_MEMBER_NAME@ ==> r is Some,
        name@ == PACKAGE_MEMBER_NAME@ ==> member_data_follows_header(r.unwrap()@, data@),
{
    let mut header = tar::Header::new_gnu();
    header.set_size(data.len() as u64);
    header.set_mode(mode);
    header.set_mtime(mtime);
    let mut builder = tar::Builder::new(Vec::new());
    builder.append_data(&mut header, name, data).ok()?;
    builder.into_inner().ok()
}

/// Packs the contents of a package file into a deployment archive. The result
/// depends on the contents alone, not on the file's metadata, and building it
/// always succeeds. The package's bytes stand unchanged right after the
/// member's header, so unpacking the archive gives them back.
pub fn build_package_archive(package: &[u8]) -> (r: Result<Vec<u8>, ArchiveError>)
    ensures
        r matches Ok(a) && a@ == package_archive(package@) && member_data_follows_header(
            a@,
            package@,
        ),
{
    match tar_with_one_member(PACKAGE_MEMBER_NAME, package, MEMBER_MODE, MEMBER_MTIME) {
        Some(a) => Ok(a),
        None => Err(ArchiveError::Build),
    }
}

/// Archiving is reproducible: equal package contents give byte-identical
/// archives.
pub proof fn lemma_archive_reproducible(p1: Seq<u8>, p2: Seq<u8>)
    requires
        p1 == p2,
    ensures
        package_archive(p1) == package_archive(p2),
{
}

} // verus!
