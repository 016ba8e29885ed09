//! Which files of a repository are read.
//!
//! A file is known by its path below the root of the repository, written
//! with `/` between its parts. It is read if no directory on the way to it
//! bears an excluded name, its extension is one of those asked for, and it
//! is no larger than the limit. These are decisions on a path and a size
//! alone, so that a file can be passed over before anything of it is read.

use crate::config::{ParserConfig, ParserView};
use crate::metadata::{
    diagnostic_views, source_views, Diagnostic, DiagnosticView, SourceFile, SourceFileView,
};
use crate::sequences::{flat_map, lemma_flat_map_empty, lemma_flat_map_push};
use crate::text::{characters, contains_text, decode_text, texts};
use vstd::prelude::*;
use vstd::utf8::{decode_utf8, valid_utf8};

verus! {

/// A file as it was read: its path below the root, and its bytes.
#[derive(Debug)]
pub struct RawFile {
    pub path: String,
    pub bytes: Vec<u8>,
}

/// What a [`RawFile`] holds.
pub struct RawFileView {
    pub path: Seq<char>,
    pub bytes: Seq<u8>,
}

impl View for RawFile {
    type V = RawFileView;

    open spec fn view(&self) -> RawFileView {
        RawFileView { path: self.path@, bytes: self.bytes@ }
    }
}

/// The views of a sequence of files, in order.
pub open spec fn file_views(files: Seq<RawFile>) -> Seq<RawFileView> {
    files.map_values(|f: RawFile| f@)
}

/// The place of the last `wanted` in a text, or -1 where it holds none.
pub open spec fn last_index(text: Seq<char>, wanted: char) -> int
    decreases text.len(),
{
    if text.len() == 0 {
        -1
    } else if text.last() == wanted {
        text.len() - 1
    } else {
        last_index(text.drop_last(), wanted)
    }
}

/// The parts of a path: the texts between its separators.
pub open spec fn components(path: Seq<char>) -> Seq<Seq<char>>
    decreases path.len(),
{
    let cut = last_index(path, '/');
    if 0 <= cut < path.len() {
        components(path.take(cut)).push(path.skip(cut + 1))
    } else {
        seq![path]
    }
}

/// The last part of a path: the name of the file.
pub open spec fn file_name_of(path: Seq<char>) -> Seq<char> {
    components(path).last()
}

/// The parts of a path before the last: the directories on the way to the
/// file, from the root down.
pub open spec fn directories_of(path: Seq<char>) -> Seq<Seq<char>> {
    components(path).drop_last()
}

/// The extension of a path: what follows the last `.` of the file's name.
/// A name without a `.`, one whose only `.` is its first character, and the
/// name `..` have none.
pub open spec fn extension_of(path: Seq<char>) -> Option<Seq<char>> {
    let name = file_name_of(path);
    let dot = last_index(name, '.');
    if 0 < dot < name.len() && name != ".."@ {
        Some(name.skip(dot + 1))
    } else {
        None
    }
}

/// Whether one of `parts` is among `names`.
pub open spec fn any_named(parts: Seq<Seq<char>>, names: Seq<Seq<char>>) -> bool {
    exists|i: int| 0 <= i < parts.len() && names.contains(#[trigger] parts[i])
}

/// Whether a directory on the way to the file bears one of `names`.
pub open spec fn under_excluded(path: Seq<char>, names: Seq<Seq<char>>) -> bool {
    any_named(directories_of(path), names)
}

/// Whether a file with this path and size is read under `config`.
pub open spec fn wanted(config: ParserView, path: Seq<char>, size: nat) -> bool {
    &&& !under_excluded(path, config.exclude_dirs)
    &&& extension_of(path) matches Some(extension) && config.extensions.contains(extension)
    &&& size <= config.max_file_size
}

/// What is recorded of a file whose bytes are no text.
pub open spec fn undecodable_text() -> Seq<char> {
    "Invalid source code: the file is not valid UTF-8"@
}

/// What the walk yields for one file: the file with its content as text,
/// where the file is read and its bytes are well-formed UTF-8.
pub open spec fn readable_one(config: ParserView, file: RawFileView) -> Seq<SourceFileView> {
    if wanted(config, file.path, file.bytes.len()) && valid_utf8(file.bytes) {
        seq![SourceFileView { path: file.path, content: decode_utf8(file.bytes) }]
    } else {
        Seq::empty()
    }
}

/// What the walk records for one file: a diagnostic, where the file is read
/// and its bytes are not well-formed UTF-8.
pub open spec fn undecodable_one(config: ParserView, file: RawFileView) -> Seq<DiagnosticView> {
    if wanted(config, file.path, file.bytes.len()) && !valid_utf8(file.bytes) {
        seq![DiagnosticView { path: file.path, message: undecodable_text() }]
    } else {
        Seq::empty()
    }
}

/// [`readable_one`] under a configuration.
pub open spec fn readable_each(config: ParserView) -> spec_fn(RawFileView) -> Seq<SourceFileView> {
    |file: RawFileView| readable_one(config, file)
}

/// [`undecodable_one`] under a configuration.
pub open spec fn undecodable_each(config: ParserView) -> spec_fn(RawFileView) -> Seq<
    DiagnosticView,
> {
    |file: RawFileView| undecodable_one(config, file)
}

/// The source files that the walk yields from a listing, in its order.
pub open spec fn readable(config: ParserView, files: Seq<RawFileView>) -> Seq<SourceFileView> {
    flat_map(files, readable_each(config))
}

/// The diagnostics that the walk records for a listing, in its order.
pub open spec fn undecodable(config: ParserView, files: Seq<RawFileView>) -> Seq<DiagnosticView> {
    flat_map(files, undecodable_each(config))
}

/// Where `last_index` points, the text holds `wanted`, and nowhere after.
pub proof fn lemma_last_index(text: Seq<char>, wanted: char)
    ensures
        -1 <= last_index(text, wanted) < text.len(),
        last_index(text, wanted) >= 0 ==> text[last_index(text, wanted)] == wanted,
        forall|i: int| last_index(text, wanted) < i < text.len() ==> text[i] != wanted,
    decreases text.len(),
{
    if text.len() > 0 && text.last() != wanted {
        let shorter = text.drop_last();
        lemma_last_index(shorter, wanted);
        assert forall|i: int| last_index(text, wanted) < i < text.len() implies text[i]
            != wanted by {
            if i < shorter.len() {
                assert(text[i] == shorter[i]);
            }
        }
    }
}

/// A text that holds `wanted` at `place` and nowhere after it has its last
/// `wanted` there; a text that holds none has it nowhere.
pub proof fn lemma_last_index_is(text: Seq<char>, wanted: char, place: int)
    requires
        -1 <= place < text.len(),
        place >= 0 ==> text[place] == wanted,
        forall|i: int| place < i < text.len() ==> text[i] != wanted,
    ensures
        last_index(text, wanted) == place,
{
    lemma_last_index(text, wanted);
}

/// Finds the last `wanted` among the characters from `start` up to `end`.
/// The place it gives counts from `start`.
fn find_last(list: &Vec<char>, start: usize, end: usize, wanted: char) -> (place: Option<usize>)
    requires
        start <= end <= list.len(),
    ensures
        match place {
            Some(at) => at as int == last_index(list@.subrange(start as int, end as int), wanted),
            None => last_index(list@.subrange(start as int, end as int), wanted) == -1,
        },
{
    let ghost part = list@.subrange(start as int, end as int);
    let mut index: usize = end;
    while index > start
        invariant
            start <= index <= end <= list.len(),
            part == list@.subrange(start as int, end as int),
            forall|i: int| index - start <= i < part.len() ==> part[i] != wanted,
        decreases index,
    {
        index -= 1;
        if list[index] == wanted {
            proof {
                lemma_last_index_is(part, wanted, index - start);
            }
            return Some(index - start);
        }
    }
    proof {
        lemma_last_index_is(part, wanted, -1);
    }
    None
}

/// The parts of a path, written one after the other with a separator
/// between them.
pub open spec fn joined(parts: Seq<Seq<char>>) -> Seq<char>
    decreases parts.len(),
{
    if parts.len() == 0 {
        Seq::empty()
    } else if parts.len() == 1 {
        parts[0]
    } else {
        joined(parts.drop_last()) + seq!['/'] + parts.last()
    }
}

/// A path has at least one part, no part holds a separator, and the parts
/// put together again are the path.
pub proof fn lemma_components_make_the_path(path: Seq<char>)
    ensures
        components(path).len() >= 1,
        forall|i: int|
            0 <= i < components(path).len() ==> !(#[trigger] components(path)[i]).contains('/'),
        joined(components(path)) == path,
    decreases path.len(),
{
    lemma_last_index(path, '/');
    let cut = last_index(path, '/');
    if 0 <= cut < path.len() {
        let parent = path.take(cut);
        let name = path.skip(cut + 1);
        lemma_components_make_the_path(parent);
        let parts = components(parent).push(name);
        assert(parts.drop_last() == components(parent));
        assert(parent + seq!['/'] + name == path);
        assert forall|i: int| 0 <= i < parts.len() implies !(#[trigger] parts[i]).contains(
            '/',
        ) by {
            if i == parts.len() - 1 {
                if name.contains('/') {
                    let at = choose|at: int| 0 <= at < name.len() && name[at] == '/';
                    assert(path[cut + 1 + at] == '/');
                }
            } else {
                assert(parts[i] == components(parent)[i]);
            }
        }
    } else {
        if path.contains('/') {
            let at = choose|at: int| 0 <= at < path.len() && path[at] == '/';
            assert(path[at] == '/');
        }
    }
}

/// The extension of a path is what the path ends with behind its last `.`:
/// it holds neither a `.` nor a separator.
pub proof fn lemma_extension_ends_the_path(path: Seq<char>)
    ensures
        extension_of(path) matches Some(extension) ==> {
            &&& extension.len() < path.len()
            &&& path.skip(path.len() - extension.len()) == extension
            &&& path[path.len() - extension.len() - 1] == '.'
            &&& !extension.contains('.')
            &&& !extension.contains('/')
        },
{
    if extension_of(path) is Some {
        let extension = extension_of(path)->0;
        let name = file_name_of(path);
        let dot = last_index(name, '.');
        lemma_last_index(path, '/');
        lemma_last_index(name, '.');
        lemma_components_make_the_path(path);
        let cut = last_index(path, '/');
        let start = if 0 <= cut < path.len() {
            cut + 1
        } else {
            0
        };
        assert(name == path.skip(start));
        assert(extension == path.skip(start + dot + 1));
        assert(path[start + dot] == name[dot]);
        if extension.contains('.') {
            let at = choose|at: int| 0 <= at < extension.len() && extension[at] == '.';
            assert(name[dot + 1 + at] == '.');
        }
        if extension.contains('/') {
            let at = choose|at: int| 0 <= at < extension.len() && extension[at] == '/';
            assert(name[dot + 1 + at] == '/');
            assert(name.contains('/'));
            assert(components(path)[components(path).len() - 1] == name);
        }
    }
}

/// One more part is named exactly when it is, or one before it was.
pub proof fn lemma_any_named_push(parts: Seq<Seq<char>>, part: Seq<char>, names: Seq<Seq<char>>)
    ensures
        any_named(parts.push(part), names) <==> any_named(parts, names) || names.contains(part),
{
    let longer = parts.push(part);
    if any_named(parts, names) {
        let i = choose|i: int| 0 <= i < parts.len() && names.contains(#[trigger] parts[i]);
        assert(longer[i] == parts[i]);
    }
    if names.contains(part) {
        assert(longer[parts.len() as int] == part);
    }
    if any_named(longer, names) {
        let i = choose|i: int| 0 <= i < longer.len() && names.contains(#[trigger] longer[i]);
        if i < parts.len() {
            assert(parts[i] == longer[i]);
        }
    }
}

/// The extension of a path, as a piece of the path.
pub fn extension(path: &str) -> (found: Option<&str>)
    ensures
        match extension_of(path@) {
            Some(extension) => found matches Some(text) && text@ == extension,
            None => found is None,
        },
{
    let list = characters(path);
    let len = list.len();
    proof {
        lemma_last_index(path@, '/');
        assert(list@.subrange(0, len as int) == path@);
    }
    let start = match find_last(&list, 0, len, '/') {
        Some(cut) => cut + 1,
        None => 0,
    };
    let ghost name = file_name_of(path@);
    assert(name == list@.subrange(start as int, len as int));
    proof {
        lemma_last_index(name, '.');
    }
    match find_last(&list, start, len, '.') {
        Some(dot) => {
            proof {
                reveal_strlit("..");
            }
            if dot == 0 {
                None
            } else if len - start == 2 && list[start] == '.' {
                assert(name == ".."@);
                None
            } else {
                assert(name != ".."@) by {
                    if name.len() == 2 {
                        assert(name[0] == list@[start as int]);
                        assert(".."@[0] == '.');
                    }
                }
                assert(name.skip(dot + 1) == path@.subrange(start + dot + 1, len as int));
                Some(path.substring_char(start + dot + 1, len))
            }
        },
        None => None,
    }
}

/// Whether a directory on the way to the file bears one of `names`.
pub fn is_excluded(path: &str, names: &Vec<String>) -> (excluded: bool)
    ensures
        excluded == under_excluded(path@, texts(names@)),
{
    let list = characters(path);
    let len = list.len();
    proof {
        lemma_last_index(path@, '/');
        assert(list@.subrange(0, len as int) == path@);
    }
    let mut end = match find_last(&list, 0, len, '/') {
        Some(cut) => cut,
        None => {
            assert(directories_of(path@).len() == 0);
            return false;
        },
    };
    assert(directories_of(path@) == components(path@.take(end as int)));
    loop
        invariant
            end <= len,
            len == list.len(),
            list@ == path@,
            under_excluded(path@, texts(names@)) <==> any_named(
                components(path@.take(end as int)),
                texts(names@),
            ),
        decreases end,
    {
        let ghost prefix = path@.take(end as int);
        proof {
            lemma_last_index(prefix, '/');
            assert(list@.subrange(0, end as int) == prefix);
        }
        match find_last(&list, 0, end, '/') {
            Some(cut) => {
                let part = path.substring_char(cut + 1, end);
                proof {
                    assert(prefix.skip(cut + 1) == part@);
                    assert(prefix.take(cut as int) == path@.take(cut as int));
                    lemma_any_named_push(components(prefix.take(cut as int)), part@, texts(names@));
                }
                if contains_text(names, part) {
                    return true;
                }
                end = cut;
            },
            None => {
                let part = path.substring_char(0, end);
                proof {
                    assert(part@ == prefix);
                    assert(components(prefix) == seq![prefix]);
                    lemma_any_named_push(Seq::empty(), prefix, texts(names@));
                    assert(Seq::<Seq<char>>::empty().push(prefix) == seq![prefix]);
                }
                return contains_text(names, part);
            },
        }
    }
}

/// Whether the walk goes down into a directory of this name.
pub fn should_descend(name: &str, config: &ParserConfig) -> (descend: bool)
    ensures
        descend == !config@.exclude_dirs.contains(name@),
{
    !contains_text(&config.exclude_dirs, name)
}

/// Whether a file with this path and size is read. Nothing of the file is
/// needed to tell.
pub fn accepts(path: &str, size: u64, config: &ParserConfig) -> (accepted: bool)
    ensures
        accepted == wanted(config@, path@, size as nat),
{
    if size > config.max_file_size as u64 {
        return false;
    }
    match extension(path) {
        Some(found) => {
            if !contains_text(&config.extensions, found) {
                return false;
            }
        },
        None => {
            return false;
        },
    }
    !is_excluded(path, &config.exclude_dirs)
}

/// What the walk made of a listing.
#[derive(Debug)]
pub struct Loaded {
    /// The files that are read, with their content as text.
    pub files: Vec<SourceFile>,
    /// The record of the files that are read but hold no text.
    pub skipped: Vec<Diagnostic>,
}

/// Walks a listing: keeps the files that are read under `config`, in their
/// order, and decodes their content. A file whose bytes are not well-formed
/// UTF-8 is recorded and left out.
pub fn load_repository_files(files: Vec<RawFile>, config: &ParserConfig) -> (loaded: Loaded)
    ensures
        source_views(loaded.files@) == readable(config@, file_views(files@)),
        diagnostic_views(loaded.skipped@) == undecodable(config@, file_views(files@)),
{
    let ghost all = file_views(files@);
    let mut kept: Vec<SourceFile> = Vec::new();
    let mut skipped: Vec<Diagnostic> = Vec::new();
    proof {
        lemma_flat_map_empty(readable_each(config@));
        lemma_flat_map_empty(undecodable_each(config@));
        assert(all.take(0) == Seq::<RawFileView>::empty());
    }
    for file in it: files
        invariant
            it.seq() == files@,
            all == file_views(files@),
            source_views(kept@) == readable(config@, all.take(it.index() as int)),
            diagnostic_views(skipped@) == undecodable(config@, all.take(it.index() as int)),
    {
        let ghost kept_before = source_views(kept@);
        let ghost skipped_before = diagnostic_views(skipped@);
        let ghost index = it.index() as int;
        proof {
            assert(all.take(index + 1) == all.take(index).push(file@));
            lemma_flat_map_push(all.take(index), file@, readable_each(config@));
            lemma_flat_map_push(all.take(index), file@, undecodable_each(config@));
        }
        let RawFile { path, bytes } = file;
        if accepts(path.as_str(), bytes.len() as u64, config) {
            match decode_text(bytes) {
                Some(content) => {
                    let source = SourceFile { path, content };
                    kept.push(source);
                    assert(source_views(kept@) == kept_before.push(source@));
                },
                None => {
                    let diagnostic = Diagnostic {
                        path,
                        message: "Invalid source code: the file is not valid UTF-8".to_owned(),
                    };
                    skipped.push(diagnostic);
                    assert(diagnostic_views(skipped@) == skipped_before.push(diagnostic@));
                },
            }
        }
    }
    assert(all.take(files@.len() as int) == all);
    Loaded { files: kept, skipped }
}

} // verus!
