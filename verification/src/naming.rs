//! Container naming: how the names of compressed files, archives and their
//! decompressed counterparts are derived from one another.
//!
//! Every function here works on a file name, the final component of a
//! path. Joining a name to its directory is left to the caller.

use crate::error::EngineError;
use vstd::prelude::*;

verus! {

/// Whether `text` ends with `suffix`.
pub open spec fn ends_with(text: Seq<char>, suffix: Seq<char>) -> bool {
    text.len() >= suffix.len() && text.subrange(text.len() - suffix.len(), text.len() as int)
        =~= suffix
}

/// The position of the last dot of `name`, or -1 where it has none.
pub open spec fn last_dot(name: Seq<char>) -> int
    decreases name.len(),
{
    if name.len() == 0 {
        -1
    } else if name.last() == '.' {
        name.len() - 1
    } else {
        last_dot(name.drop_last())
    }
}

/// Whether the last dot of `name` separates a stem from an extension: it
/// does not where the name has no dot, starts with its only dot, or is the
/// parent-directory name.
pub open spec fn splits_at_dot(name: Seq<char>) -> bool {
    last_dot(name) > 0 && name != ".."@
}

/// The extension of `name`: what follows its last dot, where that dot
/// separates.
pub open spec fn extension(name: Seq<char>) -> Option<Seq<char>> {
    if splits_at_dot(name) {
        Some(name.subrange(last_dot(name) + 1, name.len() as int))
    } else {
        None
    }
}

/// The stem of `name`: what precedes its last dot, where that dot separates,
/// and the whole name otherwise.
pub open spec fn file_stem(name: Seq<char>) -> Seq<char> {
    if splits_at_dot(name) {
        name.subrange(0, last_dot(name))
    } else {
        name
    }
}

/// Whether `name` carries the extension of a compressed container.
pub open spec fn has_zst_extension(name: Seq<char>) -> bool {
    extension(name) == Some("zst"@)
}

/// Whether `name` is that of a compressed archive.
pub open spec fn is_tar_zst(name: Seq<char>) -> bool {
    ends_with(name, ".tar.zst"@)
}

/// The name a file is compressed to: the `zst` extension appended behind
/// the extension it has, or set where it has none.
pub open spec fn compressed_name(name: Seq<char>) -> Seq<char> {
    name + ".zst"@
}

/// The name a directory, or a directory without a name of its own, is
/// archived to.
pub open spec fn archive_name(directory: Option<Seq<char>>) -> Seq<char> {
    match directory {
        Some(name) => name + ".tar.zst"@,
        None => "archivio"@ + ".tar.zst"@,
    }
}

/// The name a compressed file is decompressed to: its last extension
/// stripped.
pub open spec fn decompressed_name(name: Seq<char>) -> Seq<char> {
    file_stem(name)
}

/// The name of the directory an archive is extracted to: both of its
/// extensions stripped, or `output` where stripping one leaves no name.
pub open spec fn extraction_name(name: Seq<char>) -> Seq<char> {
    let inner = file_stem(name);
    if inner == "."@ || inner == ".."@ || inner.len() == 0 {
        "output"@
    } else {
        file_stem(inner)
    }
}

/// The two shapes of container the engine reads.
#[derive(Debug, Clone, Copy, PartialEq, Eq, Structural)]
pub enum ContainerKind {
    /// One compressed file.
    SingleFile,
    /// A compressed archive of several files.
    Archive,
}

/// The shape of the container called `name`, or the refusal of a name that
/// is not a container's.
pub open spec fn container_kind_of(name: Seq<char>) -> Result<ContainerKind, EngineError> {
    if !has_zst_extension(name) {
        Err(EngineError::InvalidInput)
    } else if is_tar_zst(name) {
        Ok(ContainerKind::Archive)
    } else {
        Ok(ContainerKind::SingleFile)
    }
}

/// Where an operation writes its result.
pub enum OutputTarget {
    /// Under the derived name, beside the input.
    BesideInput { name: String },
    /// Under the derived name, inside the directory the caller chose.
    InDirectory { directory: String, name: String },
    /// Exactly at the path the caller chose.
    Exact { path: String },
}

/// What an output target holds.
pub ghost enum OutputTargetView {
    BesideInput { name: Seq<char> },
    InDirectory { directory: Seq<char>, name: Seq<char> },
    Exact { path: Seq<char> },
}

impl View for OutputTarget {
    type V = OutputTargetView;

    open spec fn view(&self) -> OutputTargetView {
        match self {
            OutputTarget::BesideInput { name } => OutputTargetView::BesideInput { name: name@ },
            OutputTarget::InDirectory { directory, name } => OutputTargetView::InDirectory {
                directory: directory@,
                name: name@,
            },
            OutputTarget::Exact { path } => OutputTargetView::Exact { path: path@ },
        }
    }
}

/// Where the result goes, given the derived name, the caller's choice and
/// whether that choice is an existing directory: beside the input where the
/// caller chose nothing, inside a chosen directory, at a chosen file path
/// verbatim.
pub open spec fn output_target(
    derived: Seq<char>,
    chosen: Option<Seq<char>>,
    chosen_is_directory: bool,
) -> OutputTargetView {
    match chosen {
        None => OutputTargetView::BesideInput { name: derived },
        Some(path) => if chosen_is_directory {
            OutputTargetView::InDirectory { directory: path, name: derived }
        } else {
            OutputTargetView::Exact { path }
        },
    }
}

/// Where an archive is extracted to: the directory the caller chose, or one
/// under the derived name beside the input.
pub open spec fn extraction_target(derived: Seq<char>, chosen: Option<Seq<char>>)
    -> OutputTargetView {
    match chosen {
        None => OutputTargetView::BesideInput { name: derived },
        Some(path) => OutputTargetView::Exact { path },
    }
}

/// Tells whether `text` ends with `suffix`.
pub fn str_ends_with(text: &str, suffix: &str) -> (answer: bool)
    ensures
        answer == ends_with(text@, suffix@),
{
    let text_len: usize = text.unicode_len();
    let suffix_len: usize = suffix.unicode_len();
    if text_len < suffix_len {
        return false;
    }
    let start: usize = text_len - suffix_len;
    let mut i: usize = 0;
    while i < suffix_len
        invariant
            text_len == text@.len(),
            suffix_len == suffix@.len(),
            start == text_len - suffix_len,
            i <= suffix_len,
            forall|j: int| 0 <= j < i ==> text@[start + j] == suffix@[j],
        decreases suffix_len - i,
    {
        if text.get_char(start + i) != suffix.get_char(i) {
            assert(text@.subrange(start as int, text_len as int)[i as int] != suffix@[i as int]);
            return false;
        }
        i = i + 1;
    }
    assert(text@.subrange(start as int, text_len as int) =~= suffix@);
    true
}

/// Finds the last dot of `name`.
pub fn find_last_dot(name: &str) -> (position: Option<usize>)
    ensures
        match position {
            Some(p) => p == last_dot(name@),
            None => last_dot(name@) == -1,
        },
{
    let len: usize = name.unicode_len();
    let mut found: Option<usize> = None;
    let mut i: usize = 0;
    while i < len
        invariant
            len == name@.len(),
            i <= len,
            match found {
                Some(p) => p == last_dot(name@.take(i as int)),
                None => last_dot(name@.take(i as int)) == -1,
            },
        decreases len - i,
    {
        proof {
            assert(name@.take(i + 1).drop_last() =~= name@.take(i as int));
        }
        if name.get_char(i) == '.' {
            found = Some(i);
        }
        i = i + 1;
    }
    proof {
        assert(name@.take(len as int) =~= name@);
    }
    found
}

/// The last dot of a name is a dot, and no dot follows it.
pub proof fn lemma_last_dot(name: Seq<char>)
    ensures
        -1 <= last_dot(name) < name.len(),
        last_dot(name) >= 0 ==> name[last_dot(name)] == '.',
        forall|j: int| last_dot(name) < j < name.len() ==> name[j] != '.',
    decreases name.len(),
{
    if name.len() > 0 && name.last() != '.' {
        lemma_last_dot(name.drop_last());
        assert forall|j: int| last_dot(name) < j < name.len() implies name[j] != '.' by {
            if j < name.len() - 1 {
                assert(name.drop_last()[j] == name[j]);
            }
        }
    }
}

/// A name carries the container extension exactly when it ends with it and
/// has something before it.
pub proof fn lemma_zst_extension(name: Seq<char>)
    ensures
        has_zst_extension(name) <==> name.len() > 4 && ends_with(name, ".zst"@),
        has_zst_extension(name) ==> last_dot(name) == name.len() - 4 && file_stem(name)
            == name.subrange(0, name.len() - 4),
{
    reveal_strlit(".zst");
    reveal_strlit("zst");
    reveal_strlit("..");
    lemma_last_dot(name);
    let d = last_dot(name);
    let n = name.len() as int;
    if has_zst_extension(name) {
        let ext = name.subrange(d + 1, n);
        assert(ext == "zst"@);
        assert(ext.len() == 3);
        assert(d == n - 4);
        assert(ext[0] == 'z' && ext[1] == 's' && ext[2] == 't');
        assert(name[d + 1] == ext[0] && name[d + 2] == ext[1] && name[d + 3] == ext[2]);
        assert(name.subrange(n - 4, n) =~= ".zst"@);
    }
    if n > 4 && ends_with(name, ".zst"@) {
        let tail = name.subrange(n - 4, n);
        assert(tail[0] == '.' && tail[1] == 'z' && tail[2] == 's' && tail[3] == 't');
        assert(name[n - 4] == '.' && name[n - 3] == 'z' && name[n - 2] == 's' && name[n - 1]
            == 't');
        assert(d == n - 4) by {
            if d < n - 4 {
                assert(name[n - 4] != '.');
            }
        }
        assert(name.subrange(d + 1, n) =~= "zst"@);
    }
}

/// Tells whether `name` carries the extension of a compressed container.
pub fn is_compressed_name(name: &str) -> (answer: bool)
    ensures
        answer == has_zst_extension(name@),
{
    proof {
        lemma_zst_extension(name@);
    }
    let len: usize = name.unicode_len();
    len > 4 && str_ends_with(name, ".zst")
}

/// Tells whether `name` is that of a compressed archive.
pub fn is_archive_name(name: &str) -> (answer: bool)
    ensures
        answer == is_tar_zst(name@),
{
    str_ends_with(name, ".tar.zst")
}

/// Classifies a container by its name alone, before anything is read: a
/// name without the container extension is refused, one that ends in
/// `.tar.zst` is an archive, any other is a single compressed file.
pub fn container_kind(name: &str) -> (kind: Result<ContainerKind, EngineError>)
    ensures
        kind == container_kind_of(name@),
{
    if !is_compressed_name(name) {
        Err(EngineError::InvalidInput)
    } else if is_archive_name(name) {
        Ok(ContainerKind::Archive)
    } else {
        Ok(ContainerKind::SingleFile)
    }
}

/// Derives the name a file is compressed to.
pub fn build_output_path(input_name: &str) -> (output_name: String)
    ensures
        output_name@ == compressed_name(input_name@),
{
    let mut output_name = input_name.to_owned();
    output_name.append(".zst");
    output_name
}

/// Derives the name a directory is archived to; a directory without a name
/// of its own is archived under a fixed one.
pub fn archive_output_name(directory: Option<&str>) -> (output_name: String)
    ensures
        output_name@ == archive_name(
            match directory {
                Some(name) => Some(name@),
                None => None,
            },
        ),
{
    let mut output_name = match directory {
        Some(name) => name.to_owned(),
        None => "archivio".to_owned(),
    };
    output_name.append(".tar.zst");
    output_name
}

/// Finds where the stem of `name` ends, if its last dot separates a stem
/// from an extension.
pub fn find_stem_end(name: &str) -> (end: Option<usize>)
    ensures
        match end {
            Some(d) => splits_at_dot(name@) && d == last_dot(name@),
            None => !splits_at_dot(name@),
        },
{
    proof {
        reveal_strlit("..");
        lemma_last_dot(name@);
    }
    match find_last_dot(name) {
        Some(d) => {
            if d == 0 {
                None
            } else if d == 1 && name.unicode_len() == 2 && name.get_char(0) == '.' {
                assert(name@ =~= ".."@);
                None
            } else {
                assert(name@ != ".."@) by {
                    if name@ == ".."@ {
                        assert(d == 1) by {
                            if d < 1 {
                                assert(name@[1] != '.');
                            }
                        }
                    }
                }
                Some(d)
            }
        },
        None => None,
    }
}

/// Derives the name a compressed file is decompressed to.
pub fn decompressed_output_name(name: &str) -> (output_name: String)
    ensures
        output_name@ == decompressed_name(name@),
{
    proof {
        lemma_last_dot(name@);
    }
    match find_stem_end(name) {
        Some(d) => name.substring_char(0, d).to_owned(),
        None => name.to_owned(),
    }
}

/// Derives the name of the directory an archive is extracted to.
pub fn extraction_output_name(name: &str) -> (output_name: String)
    ensures
        output_name@ == extraction_name(name@),
{
    proof {
        reveal_strlit(".");
        reveal_strlit("..");
        lemma_last_dot(name@);
    }
    let inner: &str = match find_stem_end(name) {
        Some(d) => name.substring_char(0, d),
        None => name,
    };
    let inner_len: usize = inner.unicode_len();
    let is_dots: bool = if inner_len == 1 {
        inner.get_char(0) == '.'
    } else if inner_len == 2 {
        inner.get_char(0) == '.' && inner.get_char(1) == '.'
    } else {
        inner_len == 0
    };
    proof {
        assert(is_dots == (inner@ == "."@ || inner@ == ".."@ || inner@.len() == 0)) by {
            if inner_len == 1 && inner@[0] == '.' {
                assert(inner@ =~= "."@);
            }
            if inner_len == 2 && inner@[0] == '.' && inner@[1] == '.' {
                assert(inner@ =~= ".."@);
            }
        }
        lemma_last_dot(inner@);
    }
    if is_dots {
        "output".to_owned()
    } else {
        match find_stem_end(inner) {
            Some(d) => inner.substring_char(0, d).to_owned(),
            None => inner.to_owned(),
        }
    }
}

/// Decides where a compression or a single-file decompression writes its
/// result.
pub fn resolve_output(derived: String, chosen: Option<&str>, chosen_is_directory: bool) -> (target:
    OutputTarget)
    ensures
        target@ == output_target(
            derived@,
            match chosen {
                Some(path) => Some(path@),
                None => None,
            },
            chosen_is_directory,
        ),
{
    match chosen {
        None => OutputTarget::BesideInput { name: derived },
        Some(path) => {
            if chosen_is_directory {
                OutputTarget::InDirectory { directory: path.to_owned(), name: derived }
            } else {
                OutputTarget::Exact { path: path.to_owned() }
            }
        },
    }
}

/// Decides which directory an archive is extracted to.
pub fn resolve_extraction(derived: String, chosen: Option<&str>) -> (target: OutputTarget)
    ensures
        target@ == extraction_target(
            derived@,
            match chosen {
                Some(path) => Some(path@),
                None => None,
            },
        ),
{
    match chosen {
        None => OutputTarget::BesideInput { name: derived },
        Some(path) => OutputTarget::Exact { path: path.to_owned() },
    }
}

/// Compressing a named file and decompressing the result gives the name
/// back: the compressed name is a container's, and stripping its extension
/// restores the original.
pub proof fn lemma_file_name_round_trip(name: Seq<char>)
    requires
        name.len() > 0,
    ensures
        has_zst_extension(compressed_name(name)),
        decompressed_name(compressed_name(name)) == name,
        container_kind_of(compressed_name(name)) == if ends_with(name, ".tar"@) {
            Ok::<ContainerKind, EngineError>(ContainerKind::Archive)
        } else {
            Ok::<ContainerKind, EngineError>(ContainerKind::SingleFile)
        },
{
    reveal_strlit(".zst");
    reveal_strlit(".tar");
    reveal_strlit(".tar.zst");
    let out = compressed_name(name);
    let n = out.len() as int;
    assert(out.subrange(n - 4, n) =~= ".zst"@);
    lemma_zst_extension(out);
    assert(out.subrange(0, n - 4) =~= name);
    if ends_with(name, ".tar"@) {
        let m = name.len() as int;
        let tail = name.subrange(m - 4, m);
        assert(tail[0] == '.' && tail[1] == 't' && tail[2] == 'a' && tail[3] == 'r');
        assert(out.subrange(n - 8, n) =~= ".tar.zst"@);
    }
    if is_tar_zst(out) {
        let tail = out.subrange(n - 8, n);
        assert(tail[0] == '.' && tail[1] == 't' && tail[2] == 'a' && tail[3] == 'r');
        assert(name.subrange(n - 8, n - 4) =~= ".tar"@);
    }
}

/// Archiving a named directory and extracting the result gives the name
/// back: the archive name is an archive's, and stripping both extensions
/// restores the original.
pub proof fn lemma_directory_name_round_trip(name: Seq<char>)
    requires
        name.len() > 0,
    ensures
        container_kind_of(archive_name(Some(name))) == Ok::<ContainerKind, EngineError>(
            ContainerKind::Archive,
        ),
        extraction_name(archive_name(Some(name))) == name,
{
    reveal_strlit(".zst");
    reveal_strlit(".tar.zst");
    reveal_strlit(".");
    reveal_strlit("..");
    let out = archive_name(Some(name));
    let n = out.len() as int;
    assert(out.subrange(n - 8, n) =~= ".tar.zst"@);
    assert(out.subrange(n - 4, n) =~= ".zst"@);
    lemma_zst_extension(out);
    let inner = file_stem(out);
    assert(inner =~= name + seq!['.', 't', 'a', 'r']);
    let m = inner.len() as int;
    lemma_last_dot(inner);
    assert(inner[m - 4] == '.' && inner[m - 3] == 't' && inner[m - 2] == 'a' && inner[m - 1]
        == 'r');
    assert(last_dot(inner) == m - 4) by {
        if last_dot(inner) < m - 4 {
            assert(inner[m - 4] != '.');
        }
    }
    assert(inner.subrange(0, m - 4) =~= name);
    assert(inner != "."@ && inner != ".."@);
}

/// Containers are told apart by their names alone: a name that ends in
/// `.tar.zst` is an archive's, any other name that ends in `.zst` behind
/// a non-empty stem is a single compressed file's, and every other name
/// is refused.
pub proof fn lemma_dispatch_by_extension(name: Seq<char>)
    ensures
        ends_with(name, ".tar.zst"@) ==> container_kind_of(name) == Ok::<
            ContainerKind,
            EngineError,
        >(ContainerKind::Archive),
        name.len() > 4 && ends_with(name, ".zst"@) && !ends_with(name, ".tar.zst"@)
            ==> container_kind_of(name) == Ok::<ContainerKind, EngineError>(
            ContainerKind::SingleFile,
        ),
        !(name.len() > 4 && ends_with(name, ".zst"@)) ==> container_kind_of(name) == Err::<
            ContainerKind,
            EngineError,
        >(EngineError::InvalidInput),
{
    reveal_strlit(".zst");
    reveal_strlit(".tar.zst");
    lemma_zst_extension(name);
    if ends_with(name, ".tar.zst"@) {
        let n = name.len() as int;
        let tail = name.subrange(n - 8, n);
        assert(tail[4] == '.' && tail[5] == 'z' && tail[6] == 's' && tail[7] == 't');
        assert(name.subrange(n - 4, n) =~= ".zst"@);
    }
}

} // verus!
