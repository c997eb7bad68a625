//! The tar archive that carries a single file into a container.

use vstd::prelude::*;

verus! {

/// The texts of a list of strings.
pub open spec fn string_views(strings: Seq<String>) -> Seq<Seq<char>> {
    strings.map_values(|s: String| s@)
}

/// The bytes of an archive, if there is one.
pub open spec fn opt_bytes(archive: Option<Vec<u8>>) -> Option<Seq<u8>> {
    match archive {
        Some(archive) => Some(archive@),
        None => None,
    }
}

/// The components that `std::path::Path` cuts a path into, first to last.
pub uninterp spec fn path_components(path: Seq<char>) -> Seq<Seq<char>>;

/// `Path::iter`: the components of a path, each as text.
#[verifier::external_body]
fn components_of(path: &str) -> (parts: Vec<String>)
    ensures
        string_views(parts@) == path_components(path@),
{
    std::path::Path::new(path).iter().map(|part| part.to_string_lossy().into_owned()).collect()
}

/// The path that `std::path::PathBuf` makes of components that are pushed
/// onto an empty path one after the other.
pub uninterp spec fn path_of_components(parts: Seq<Seq<char>>) -> Seq<char>;

/// `FromIterator` of `PathBuf`: the path that the components make.
#[verifier::external_body]
fn collect_path(parts: &[String]) -> (path: String)
    ensures
        path@ == path_of_components(string_views(parts@)),
{
    parts.iter().collect::<std::path::PathBuf>().to_string_lossy().into_owned()
}

/// The tar archive that the `tar` crate builds of one file: a GNU header
/// with the given path, the given mode and the size of the data, then the
/// data, then the end of the archive. There is none where the crate refuses
/// the path.
pub uninterp spec fn tar_of_file(path: Seq<char>, mode: u32, data: Seq<u8>) -> Option<Seq<u8>>;

/// `tar::Builder::append_data` on a new builder over an empty vector, with a
/// new GNU header that has the size of the data and the given mode set, and
/// `into_inner` to end the archive.
#[verifier::external_body]
fn tar_file(path: &str, mode: u32, data: &[u8]) -> (archive: Option<Vec<u8>>)
    ensures
        opt_bytes(archive) == tar_of_file(path@, mode, data@),
{
    let mut ar = tar::Builder::new(Vec::new());
    let mut header = tar::Header::new_gnu();
    header.set_size(data.len() as u64);
    header.set_mode(mode);
    ar.append_data(&mut header, path, data).ok()?;
    ar.into_inner().ok()
}

/// The access mode of a file that is copied into a container: read and
/// write for its owner, read for everyone else.
pub const FILE_MODE: u32 = 0o644;

/// Components less the first of them, if there is one.
pub open spec fn without_first(parts: Seq<Seq<char>>) -> Seq<Seq<char>> {
    if parts.len() == 0 {
        parts
    } else {
        parts.skip(1)
    }
}

/// The path under which a file is archived: its path less the first
/// component, which for an absolute path is the root.
pub open spec fn archived_path(path: Seq<char>) -> Seq<char> {
    path_of_components(without_first(path_components(path)))
}

/// The archive that carries the file at `path` with the contents `data`.
pub open spec fn file_archive(path: Seq<char>, data: Seq<u8>) -> Option<Seq<u8>> {
    tar_of_file(archived_path(path), FILE_MODE, data)
}

/// Packs the one file that has its place at `path` and the contents `data`
/// into a tar archive. The file is archived under its path less the first
/// component, with the mode 644. There is no archive where that path cannot
/// stand in one.
pub fn single_file(path: &str, data: &[u8]) -> (archive: Option<Vec<u8>>)
    ensures
        opt_bytes(archive) == file_archive(path@, data@),
{
    let parts = components_of(path);
    let from: usize = if parts.len() == 0 {
        0
    } else {
        1
    };
    let rest = vstd::slice::slice_subrange(parts.as_slice(), from, parts.len());
    assert(string_views(rest@) =~= without_first(string_views(parts@)));
    let relative = collect_path(rest);
    tar_file(relative.as_str(), FILE_MODE, data)
}

} // verus!
