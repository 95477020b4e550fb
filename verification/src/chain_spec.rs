//! Which chain specification a textual identifier selects.

use vstd::prelude::*;
use vstd::string::*;

verus! {

/// Where the chain specification of a node comes from.
#[derive(Debug, PartialEq, Eq)]
pub enum SpecSource {
    /// The in-memory development preset.
    Development,
    /// The in-memory local preset with several validators.
    LocalTestnet,
    /// A specification file at the given path.
    File(String),
}

/// A `SpecSource` with its path as a sequence of characters.
pub enum SpecSourceView {
    Development,
    LocalTestnet,
    File(Seq<char>),
}

impl View for SpecSource {
    type V = SpecSourceView;

    open spec fn view(&self) -> SpecSourceView {
        match self {
            SpecSource::Development => SpecSourceView::Development,
            SpecSource::LocalTestnet => SpecSourceView::LocalTestnet,
            SpecSource::File(path) => SpecSourceView::File(path@),
        }
    }
}

impl Clone for SpecSource {
    fn clone(&self) -> (copy: Self)
        ensures
            copy@ == self@,
    {
        match self {
            SpecSource::Development => SpecSource::Development,
            SpecSource::LocalTestnet => SpecSource::LocalTestnet,
            SpecSource::File(path) => SpecSource::File(path.clone()),
        }
    }
}

/// The source an identifier stands for: two names for each preset, and
/// every other identifier is the path of a specification file.
pub open spec fn source_of(id: Seq<char>) -> SpecSourceView {
    if id == "dev"@ || id == "development"@ {
        SpecSourceView::Development
    } else if id == ""@ || id == "local"@ {
        SpecSourceView::LocalTestnet
    } else {
        SpecSourceView::File(id)
    }
}

/// Whether two strings hold the same text.
pub fn same_text(a: &str, b: &str) -> (same: bool)
    ensures
        same == (a@ == b@),
{
    let x = a.to_owned();
    let y = b.to_owned();
    x == y
}

impl SpecSource {
    /// Resolves a chain identifier to the source of its specification.
    pub fn from_id(id: &str) -> (source: SpecSource)
        ensures
            source@ == source_of(id@),
    {
        if same_text(id, "dev") || same_text(id, "development") {
            SpecSource::Development
        } else if same_text(id, "") || same_text(id, "local") {
            SpecSource::LocalTestnet
        } else {
            SpecSource::File(id.to_owned())
        }
    }

    /// Whether the specification is one of the built-in presets.
    pub fn is_preset(&self) -> (preset: bool)
        ensures
            preset == !(self@ is File),
    {
        match self {
            SpecSource::File(_) => false,
            _ => true,
        }
    }
}

/// `"dev"` and `"development"` select the same source, as do `""` and
/// `"local"`; the two presets differ from each other, and an identifier that
/// is none of the four selects the file at that very path.
pub proof fn law_identifier_aliases(id: Seq<char>)
    ensures
        source_of("dev"@) == source_of("development"@),
        source_of("dev"@) == SpecSourceView::Development,
        source_of(""@) == source_of("local"@),
        source_of(""@) == SpecSourceView::LocalTestnet,
        source_of("dev"@) != source_of("local"@),
        id != "dev"@ && id != "development"@ && id != ""@ && id != "local"@ ==> source_of(id)
            == SpecSourceView::File(id),
{
    reveal_strlit("dev");
    reveal_strlit("development");
    reveal_strlit("");
    reveal_strlit("local");
    assert("dev"@.len() == 3);
    assert(""@.len() == 0);
    assert("local"@.len() == 5);
    assert("development"@.len() == 11);
}

} // verus!
