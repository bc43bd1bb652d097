//! Recognising plugin and service artifacts by their file name.
//!
//! An artifact is a shared library whose name ends in a marker for its
//! logical kind followed by a platform extension, such as `_plugin.so` or
//! `_service.dll`. The recognised endings are held in one table; the matching
//! code walks the table and knows nothing of its entries.

use vstd::prelude::*;
use vstd::string::*;

verus! {

/// The logical kind of an artifact.
#[derive(Clone, Copy, Debug, PartialEq, Eq, Structural)]
pub enum ArtifactKind {
    Plugin,
    Service,
}

/// The shared-library extension of a platform.
#[derive(Clone, Copy, Debug, PartialEq, Eq, Structural)]
pub enum LibraryExt {
    So,
    Dll,
    Dylib,
}

/// One recognised ending: a kind paired with an extension.
#[derive(Clone, Copy, Debug, PartialEq, Eq, Structural)]
pub struct ArtifactSuffix {
    pub kind: ArtifactKind,
    pub ext: LibraryExt,
}

impl ArtifactKind {
    /// The part of a file name that marks the kind.
    pub open spec fn marker(self) -> Seq<char> {
        match self {
            ArtifactKind::Plugin => "_plugin"@,
            ArtifactKind::Service => "_service"@,
        }
    }

    /// The marker as a string slice.
    pub fn marker_str(self) -> (s: &'static str)
        ensures
            s@ == self.marker(),
    {
        match self {
            ArtifactKind::Plugin => "_plugin",
            ArtifactKind::Service => "_service",
        }
    }
}

impl LibraryExt {
    /// The extension with its leading dot.
    pub open spec fn dotted(self) -> Seq<char> {
        match self {
            LibraryExt::So => ".so"@,
            LibraryExt::Dll => ".dll"@,
            LibraryExt::Dylib => ".dylib"@,
        }
    }

    /// The dotted extension as a string slice.
    pub fn dotted_str(self) -> (s: &'static str)
        ensures
            s@ == self.dotted(),
    {
        match self {
            LibraryExt::So => ".so",
            LibraryExt::Dll => ".dll",
            LibraryExt::Dylib => ".dylib",
        }
    }
}

impl ArtifactSuffix {
    /// The ending itself: the kind's marker followed by the dotted extension.
    pub open spec fn text(self) -> Seq<char> {
        self.kind.marker() + self.ext.dotted()
    }

    /// The ending as an owned string.
    pub fn to_text(self) -> (s: String)
        ensures
            s@ == self.text(),
    {
        String::from_str(self.kind.marker_str()).concat(self.ext.dotted_str())
    }
}

/// The table of recognised endings, in the order in which they are tried.
pub open spec fn recognized_suffixes() -> Seq<ArtifactSuffix> {
    seq![
        ArtifactSuffix { kind: ArtifactKind::Plugin, ext: LibraryExt::So },
        ArtifactSuffix { kind: ArtifactKind::Plugin, ext: LibraryExt::Dll },
        ArtifactSuffix { kind: ArtifactKind::Plugin, ext: LibraryExt::Dylib },
        ArtifactSuffix { kind: ArtifactKind::Service, ext: LibraryExt::So },
        ArtifactSuffix { kind: ArtifactKind::Service, ext: LibraryExt::Dll },
        ArtifactSuffix { kind: ArtifactKind::Service, ext: LibraryExt::Dylib },
    ]
}

/// `name` ends with `suffix`.
pub open spec fn has_suffix(name: Seq<char>, suffix: Seq<char>) -> bool {
    suffix.len() <= name.len() && name.subrange(name.len() - suffix.len(), name.len() as int)
        == suffix
}

/// `name` ends with the entry of the table at `index`.
pub open spec fn matches_entry(name: Seq<char>, index: int) -> bool {
    0 <= index < recognized_suffixes().len() && has_suffix(name, recognized_suffixes()[index].text())
}

/// `name` is the file name of an artifact: it ends with some entry of the
/// table.
pub open spec fn is_artifact_name(name: Seq<char>) -> bool {
    exists|i: int| matches_entry(name, i)
}

/// The table of recognised endings.
pub fn suffix_table() -> (table: Vec<ArtifactSuffix>)
    ensures
        table@ == recognized_suffixes(),
{
    let table = vec![
        ArtifactSuffix { kind: ArtifactKind::Plugin, ext: LibraryExt::So },
        ArtifactSuffix { kind: ArtifactKind::Plugin, ext: LibraryExt::Dll },
        ArtifactSuffix { kind: ArtifactKind::Plugin, ext: LibraryExt::Dylib },
        ArtifactSuffix { kind: ArtifactKind::Service, ext: LibraryExt::So },
        ArtifactSuffix { kind: ArtifactKind::Service, ext: LibraryExt::Dll },
        ArtifactSuffix { kind: ArtifactKind::Service, ext: LibraryExt::Dylib },
    ];
    assert(table@ =~= recognized_suffixes());
    table
}

/// Whether `name` ends with `suffix`, compared character by character.
pub fn ends_with(name: &str, suffix: &str) -> (found: bool)
    ensures
        found == has_suffix(name@, suffix@),
{
    let n: usize = name.unicode_len();
    let m: usize = suffix.unicode_len();
    if m > n {
        return false;
    }
    let start: usize = n - m;
    let mut i: usize = 0;
    while i < m
        invariant
            i <= m,
            m <= n,
            start == n - m,
            n == name@.len(),
            m == suffix@.len(),
            forall|j: int| 0 <= j < i ==> name@[start + j] == suffix@[j],
        decreases m - i,
    {
        if name.get_char(start + i) != suffix.get_char(i) {
            assert(name@.subrange(n - m, n as int)[i as int] == name@[start + i]);
            return false;
        }
        i += 1;
    }
    assert(name@.subrange(n - m, n as int) =~= suffix@);
    true
}

/// The entry of the table that `file_name` ends with, if it ends with one.
///
/// The entries are tried in table order and the first that matches is
/// returned.
pub fn classify(file_name: &str) -> (found: Option<ArtifactSuffix>)
    ensures
        found is Some <==> is_artifact_name(file_name@),
        found is Some ==> exists|i: int|
            {
                &&& matches_entry(file_name@, i)
                &&& recognized_suffixes()[i] == found->0
                &&& forall|j: int| 0 <= j < i ==> !matches_entry(file_name@, j)
            },
{
    let table = suffix_table();
    let mut i: usize = 0;
    while i < table.len()
        invariant
            i <= table.len(),
            table@ == recognized_suffixes(),
            forall|j: int| 0 <= j < i ==> !matches_entry(file_name@, j),
        decreases table.len() - i,
    {
        let entry = table[i];
        let text = entry.to_text();
        if ends_with(file_name, text.as_str()) {
            assert(matches_entry(file_name@, i as int));
            return Some(entry);
        }
        i += 1;
    }
    None
}

/// The artifact filter: whether `file_name` names a plugin or service
/// artifact. Any other name, however malformed, is simply not one.
pub fn is_artifact(file_name: &str) -> (accepted: bool)
    ensures
        accepted == is_artifact_name(file_name@),
{
    classify(file_name).is_some()
}

/// The six recognised endings, written out in full.
pub open spec fn has_recognized_ending(name: Seq<char>) -> bool {
    ||| has_suffix(name, "_plugin.so"@)
    ||| has_suffix(name, "_plugin.dll"@)
    ||| has_suffix(name, "_plugin.dylib"@)
    ||| has_suffix(name, "_service.so"@)
    ||| has_suffix(name, "_service.dll"@)
    ||| has_suffix(name, "_service.dylib"@)
}

/// Each entry of the table spells one of the six endings, in table order.
pub proof fn lemma_table_texts()
    ensures
        recognized_suffixes().len() == 6,
        recognized_suffixes()[0].text() == "_plugin.so"@,
        recognized_suffixes()[1].text() == "_plugin.dll"@,
        recognized_suffixes()[2].text() == "_plugin.dylib"@,
        recognized_suffixes()[3].text() == "_service.so"@,
        recognized_suffixes()[4].text() == "_service.dll"@,
        recognized_suffixes()[5].text() == "_service.dylib"@,
{
    reveal_strlit("_plugin");
    reveal_strlit("_service");
    reveal_strlit(".so");
    reveal_strlit(".dll");
    reveal_strlit(".dylib");
    reveal_strlit("_plugin.so");
    reveal_strlit("_plugin.dll");
    reveal_strlit("_plugin.dylib");
    reveal_strlit("_service.so");
    reveal_strlit("_service.dll");
    reveal_strlit("_service.dylib");
    assert(recognized_suffixes()[0].text() =~= "_plugin.so"@);
    assert(recognized_suffixes()[1].text() =~= "_plugin.dll"@);
    assert(recognized_suffixes()[2].text() =~= "_plugin.dylib"@);
    assert(recognized_suffixes()[3].text() =~= "_service.so"@);
    assert(recognized_suffixes()[4].text() =~= "_service.dll"@);
    assert(recognized_suffixes()[5].text() =~= "_service.dylib"@);
}

/// A name is an artifact's exactly when it ends with one of the six
/// recognised endings.
pub proof fn lemma_artifact_names(name: Seq<char>)
    ensures
        is_artifact_name(name) == has_recognized_ending(name),
{
    lemma_table_texts();
    if is_artifact_name(name) {
        let i = choose|i: int| matches_entry(name, i);
        assert(0 <= i < 6);
    }
    if has_suffix(name, "_plugin.so"@) {
        assert(matches_entry(name, 0));
    }
    if has_suffix(name, "_plugin.dll"@) {
        assert(matches_entry(name, 1));
    }
    if has_suffix(name, "_plugin.dylib"@) {
        assert(matches_entry(name, 2));
    }
    if has_suffix(name, "_service.so"@) {
        assert(matches_entry(name, 3));
    }
    if has_suffix(name, "_service.dll"@) {
        assert(matches_entry(name, 4));
    }
    if has_suffix(name, "_service.dylib"@) {
        assert(matches_entry(name, 5));
    }
}

} // verus!
