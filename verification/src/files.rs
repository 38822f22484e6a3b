//! Choosing the files to format.

use vstd::prelude::*;
use vstd::slice::slice_subrange;
use vstd::utf8::encode_utf8;
use crate::config_error::{concat, ConfigError};
use crate::text::bytes_equal;

verus! {

/// Whether `bytes` ends with `suffix`.
pub open spec fn ends_with(bytes: Seq<u8>, suffix: Seq<u8>) -> bool {
    suffix.len() <= bytes.len() && bytes.subrange(bytes.len() - suffix.len(), bytes.len() as int)
        == suffix
}

/// Whether the name `file`, as bytes, ends with the bytes of `extension`.
pub open spec fn has_extension(file: Seq<char>, extension: Seq<char>) -> bool {
    ends_with(encode_utf8(file), encode_utf8(extension))
}

/// Check if the file matches the extension.
pub fn is_file_extension(file: &str, extension: &str) -> (matches: bool)
    ensures
        matches == has_extension(file@, extension@),
{
    let name = file.as_bytes();
    let suffix = extension.as_bytes();
    if suffix.len() > name.len() {
        return false;
    }
    bytes_equal(slice_subrange(name, name.len() - suffix.len(), name.len()), suffix)
}

#[verifier::external_type_specification]
#[verifier::external_body]
pub struct ExIgnoreError(ignore::Error);

/// Whether the glob `glob` is accepted as an override of a directory walk.
pub uninterp spec fn glob_accepted(glob: Seq<char>) -> bool;

/// `OverrideBuilder::add` on a fresh builder for the current directory: the
/// glob is parsed, and the parser's error comes back if it is not accepted.
#[verifier::external_body]
fn add_override(glob: &str) -> (result: Result<(), ignore::Error>)
    ensures
        result is Ok <==> glob_accepted(glob@),
{
    ignore::overrides::OverrideBuilder::new(".").add(glob).map(|_| ())
}

/// The override globs for the first `n` exclude patterns: each pattern
/// behind a `!`, which makes a walk leave out what the pattern matches.
pub open spec fn override_globs(excludes: Seq<String>, n: int) -> Seq<Seq<char>>
    decreases n,
{
    if n <= 0 || n > excludes.len() {
        Seq::empty()
    } else {
        override_globs(excludes, n - 1).push("!"@ + excludes[n - 1]@)
    }
}

/// Whether each of the first `n` override globs is accepted.
pub open spec fn overrides_accepted(excludes: Seq<String>, n: int) -> bool {
    forall|k: int| 0 <= k < n ==> glob_accepted("!"@ + (#[trigger] excludes[k])@)
}

/// Turns exclude patterns into the override globs of a directory walk. A
/// pattern that gives no valid glob is an error.
pub fn exclude_overrides(excludes: &Vec<String>) -> (result: Result<Vec<String>, ConfigError>)
    ensures
        overrides_accepted(excludes@, excludes.len() as int) ==> (result matches Ok(globs)
            && names(globs@) == override_globs(excludes@, excludes.len() as int)),
        !overrides_accepted(excludes@, excludes.len() as int) ==> (result matches Err(
            ConfigError::InvalidExcludePattern,
        )),
{
    let mut globs: Vec<String> = Vec::new();
    let mut i: usize = 0;
    assert(names(globs@) == Seq::<Seq<char>>::empty());
    while i < excludes.len()
        invariant
            i <= excludes.len(),
            overrides_accepted(excludes@, i as int),
            names(globs@) == override_globs(excludes@, i as int),
        decreases excludes.len() - i,
    {
        let glob = concat("!", excludes[i].as_str());
        match add_override(glob.as_str()) {
            Ok(_) => {
                let ghost before = names(globs@);
                globs.push(glob);
                assert(names(globs@) == before.push("!"@ + excludes[i as int]@));
            },
            Err(_) => {
                assert(!glob_accepted("!"@ + excludes@[i as int]@));
                return Err(ConfigError::InvalidExcludePattern);
            },
        }
        i += 1;
    }
    Ok(globs)
}

/// What a path given for formatting turned out to be.
pub enum PathKind {
    /// Nothing is there.
    Missing,
    /// A directory; holds the files found under it, at any depth.
    Directory(Vec<String>),
    /// A file.
    File,
}

/// A path given for formatting.
pub struct PathEntry {
    pub path: String,
    pub kind: PathKind,
}

/// Those among the first `n` files found whose name ends with `.nu`.
pub open spec fn nu_files(found: Seq<String>, n: int) -> Seq<Seq<char>>
    decreases n,
{
    if n <= 0 || n > found.len() {
        Seq::empty()
    } else if has_extension(found[n - 1]@, ".nu"@) {
        nu_files(found, n - 1).push(found[n - 1]@)
    } else {
        nu_files(found, n - 1)
    }
}

/// The files to format for one path: none for a missing path, the `.nu`
/// files under a directory, the file itself for a file.
pub open spec fn files_for(entry: PathEntry) -> Seq<Seq<char>> {
    match entry.kind {
        PathKind::Missing => Seq::empty(),
        PathKind::Directory(found) => nu_files(found@, found.len() as int),
        PathKind::File => seq![entry.path@],
    }
}

/// The files to format for the first `n` paths, in the order of the paths.
pub open spec fn files_to_format(entries: Seq<PathEntry>, n: int) -> Seq<Seq<char>>
    decreases n,
{
    if n <= 0 || n > entries.len() {
        Seq::empty()
    } else {
        files_to_format(entries, n - 1) + files_for(entries[n - 1])
    }
}

/// The texts of a list of strings.
pub open spec fn names(strings: Seq<String>) -> Seq<Seq<char>> {
    Seq::new(strings.len(), |i: int| strings[i]@)
}

/// Chooses the files to format among a list of paths, possibly one: a file
/// is taken as it is, whatever its name; of a directory the files whose
/// name ends with `.nu` are taken; a missing path gives nothing.
pub fn format_directory(files: &Vec<PathEntry>) -> (chosen: Vec<String>)
    ensures
        names(chosen@) == files_to_format(files@, files.len() as int),
{
    let mut chosen: Vec<String> = Vec::new();
    let mut i: usize = 0;
    assert(names(chosen@) == Seq::<Seq<char>>::empty());
    while i < files.len()
        invariant
            i <= files.len(),
            names(chosen@) == files_to_format(files@, i as int),
        decreases files.len() - i,
    {
        let ghost before = names(chosen@);
        match &files[i].kind {
            PathKind::Missing => {
                assert(before + Seq::<Seq<char>>::empty() == before);
            },
            PathKind::File => {
                chosen.push(files[i].path.clone());
                assert(names(chosen@) == before + seq![files[i as int].path@]);
            },
            PathKind::Directory(found) => {
                let mut k: usize = 0;
                assert(before + Seq::<Seq<char>>::empty() == before);
                while k < found.len()
                    invariant
                        k <= found.len(),
                        names(chosen@) == before + nu_files(found@, k as int),
                    decreases found.len() - k,
                {
                    if is_file_extension(found[k].as_str(), ".nu") {
                        let ghost so_far = names(chosen@);
                        chosen.push(found[k].clone());
                        assert(names(chosen@) == so_far.push(found[k as int]@));
                        assert(before + nu_files(found@, k as int).push(found[k as int]@) == (
                        before + nu_files(found@, k as int)).push(found[k as int]@));
                    }
                    k += 1;
                }
            },
        }
        i += 1;
    }
    chosen
}

} // verus!
