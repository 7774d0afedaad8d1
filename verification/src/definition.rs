//! Player definition files: a YAML stream whose first document is a mapping
//! with a string that is not empty under the key `name`.

use vstd::prelude::*;
use vstd::string::*;
use yaml_rust2::YamlLoader;

use crate::model::{opt_view, result_view, views};
use crate::text::{normalized, strip_prologue};

verus! {

/// The key under which a definition file holds the player's identity.
pub const NAME_KEY: &'static str = "name";

/// One entry of a document's top-level mapping. A side that is a string
/// scalar is held as its text; any other node is `None`.
#[derive(Debug, Clone, PartialEq, Eq)]
pub struct Entry {
    pub key: Option<String>,
    pub value: Option<String>,
}

/// One document of a YAML stream, as far as a definition is read from it:
/// the entries of its top-level mapping in the order of the file, or `None`
/// where the document is no mapping.
#[derive(Debug, Clone, PartialEq, Eq)]
pub struct Document {
    pub entries: Option<Vec<Entry>>,
}

/// What an [`Entry`] holds, as sequences of characters.
pub struct EntryView {
    pub key: Option<Seq<char>>,
    pub value: Option<Seq<char>>,
}

/// What a [`Document`] holds, as sequences of characters.
pub struct DocumentView {
    pub entries: Option<Seq<EntryView>>,
}

impl View for Entry {
    type V = EntryView;

    open spec fn view(&self) -> EntryView {
        EntryView { key: opt_view(self.key), value: opt_view(self.value) }
    }
}

impl View for Document {
    type V = DocumentView;

    open spec fn view(&self) -> DocumentView {
        DocumentView {
            entries: match self.entries {
                Some(entries) => Some(views(entries@)),
                None => None,
            },
        }
    }
}

/// What loading a text gave: the documents of the stream, or the loader's
/// account of the first syntax error.
pub open spec fn loaded_view(loaded: Result<Vec<Document>, String>) -> Result<
    Seq<DocumentView>,
    Seq<char>,
> {
    match loaded {
        Ok(docs) => Ok(views(docs@)),
        Err(cause) => Err(cause@),
    }
}

/// What `yaml_rust2` makes of a text: its documents, or its message for the
/// syntax error that stopped it.
pub uninterp spec fn yaml_documents(text: Seq<char>) -> Result<Seq<DocumentView>, Seq<char>>;

/// Loads `text` with `yaml_rust2::YamlLoader::load_from_str`. Not verified:
/// it is taken on trust that the outcome depends on the text alone, which is
/// all that [`yaml_documents`] stands for. A document that `Yaml::as_hash`
/// gives as a mapping is handed on entry by entry, in the mapping's order,
/// each side as `Yaml::as_str` gives it; a failure is handed on as the
/// `ScanError`'s `to_string`.
#[verifier::external_body]
fn load_documents(text: &str) -> (loaded: Result<Vec<Document>, String>)
    ensures
        loaded_view(loaded) == yaml_documents(text@),
{
    match YamlLoader::load_from_str(text) {
        Ok(docs) => Ok(docs.iter().map(|d| Document {
            entries: d.as_hash().map(|h| h.iter().map(|(k, v)| Entry {
                key: k.as_str().map(str::to_owned),
                value: v.as_str().map(str::to_owned),
            }).collect()),
        }).collect()),
        Err(e) => Err(e.to_string()),
    }
}

/// A record read from one definition file.
#[derive(Debug, Clone, PartialEq, Eq)]
pub struct PlayerDefinition {
    /// The player's identity: a text that is not empty.
    pub name: String,
}

impl PlayerDefinition {
    /// Whether the record is one that a file can give: it has a name.
    pub open spec fn wf(&self) -> bool {
        self.name@.len() > 0
    }
}

impl View for PlayerDefinition {
    type V = Seq<char>;

    /// A definition is seen as the characters of its name.
    open spec fn view(&self) -> Seq<char> {
        self.name@
    }
}

/// Why a text is no player definition.
#[derive(Debug, Clone, PartialEq, Eq)]
pub enum ParseError {
    /// The text is no well-formed YAML; the loader's message is kept.
    Syntax(String),
    /// The text is YAML, but its first document holds no usable name: no
    /// string under `name`, or an empty one.
    MissingName,
}

/// A [`ParseError`] with its message as a sequence of characters.
pub enum ParseErrorView {
    Syntax(Seq<char>),
    MissingName,
}

impl View for ParseError {
    type V = ParseErrorView;

    open spec fn view(&self) -> ParseErrorView {
        match self {
            ParseError::Syntax(cause) => ParseErrorView::Syntax(cause@),
            ParseError::MissingName => ParseErrorView::MissingName,
        }
    }
}

/// The value of the first entry whose key is the string `key`: `None` where
/// no entry has that key, and where the value found is no string.
pub open spec fn value_under(entries: Seq<EntryView>, key: Seq<char>) -> Option<Seq<char>>
    decreases entries.len(),
{
    if entries.len() == 0 {
        None
    } else if entries[0].key == Some(key) {
        entries[0].value
    } else {
        value_under(entries.drop_first(), key)
    }
}

/// The identity that a document gives: the string under `name` in its
/// top-level mapping, unless it is empty.
pub open spec fn name_of(doc: DocumentView) -> Option<Seq<char>> {
    match doc.entries {
        Some(entries) => match value_under(entries, NAME_KEY@) {
            Some(name) => if name.len() > 0 {
                Some(name)
            } else {
                None
            },
            None => None,
        },
        None => None,
    }
}

/// The definition that the outcome of loading a text amounts to. A syntax
/// error stays one; otherwise the first document decides, and a stream
/// without documents has no name. The other keys of the document do not
/// count.
pub open spec fn definition_of(loaded: Result<Seq<DocumentView>, Seq<char>>) -> Result<
    Seq<char>,
    ParseErrorView,
> {
    match loaded {
        Err(cause) => Err(ParseErrorView::Syntax(cause)),
        Ok(docs) => if docs.len() > 0 && name_of(docs[0]) is Some {
            Ok(name_of(docs[0])->0)
        } else {
            Err(ParseErrorView::MissingName)
        },
    }
}

/// The definition that a file's text amounts to: the text is stripped of
/// its leading marks and blanks, loaded as YAML, and read.
pub open spec fn parsed(text: Seq<char>) -> Result<Seq<char>, ParseErrorView> {
    definition_of(yaml_documents(normalized(text)))
}

/// Looks up the string held under `key` in a list of entries.
pub fn find_value(entries: &Vec<Entry>, key: &str) -> (r: Option<String>)
    ensures
        opt_view(r) == value_under(views(entries@), key@),
{
    let wanted: String = key.to_owned();
    let ghost all = views(entries@);
    assert(all.skip(0) =~= all);
    let mut i: usize = 0;
    while i < entries.len()
        invariant
            i <= entries.len(),
            wanted@ == key@,
            all == views(entries@),
            value_under(all, key@) == value_under(all.skip(i as int), key@),
        decreases entries.len() - i,
    {
        let entry = &entries[i];
        let ghost rest = all.skip(i as int);
        assert(rest[0] == entry@);
        assert(rest.drop_first() =~= all.skip(i + 1));
        let hit = match &entry.key {
            Some(k) => *k == wanted,
            None => false,
        };
        if hit {
            return match &entry.value {
                Some(v) => Some(v.clone()),
                None => None,
            };
        }
        i = i + 1;
    }
    None
}

/// Reads the player's identity from a document.
pub fn document_name(doc: &Document) -> (r: Option<String>)
    ensures
        opt_view(r) == name_of(doc@),
{
    match &doc.entries {
        Some(entries) => match find_value(entries, NAME_KEY) {
            Some(name) => if name.as_str().is_empty() {
                None
            } else {
                Some(name)
            },
            None => None,
        },
        None => None,
    }
}

/// Turns the outcome of loading a text into a definition or the reason why
/// there is none.
pub fn definition_from(loaded: Result<Vec<Document>, String>) -> (r: Result<
    PlayerDefinition,
    ParseError,
>)
    ensures
        result_view(r) == definition_of(loaded_view(loaded)),
        r matches Ok(definition) ==> definition.wf(),
{
    match loaded {
        Err(cause) => Err(ParseError::Syntax(cause)),
        Ok(docs) => {
            if docs.len() == 0 {
                return Err(ParseError::MissingName);
            }
            match document_name(&docs[0]) {
                Some(name) => Ok(PlayerDefinition { name }),
                None => Err(ParseError::MissingName),
            }
        },
    }
}

/// Parses the text of one definition file.
pub fn parse_definition(text: &str) -> (r: Result<PlayerDefinition, ParseError>)
    ensures
        result_view(r) == parsed(text@),
        r matches Ok(definition) ==> definition.wf(),
{
    definition_from(load_documents(strip_prologue(text)))
}

/// A file that starts with a byte-order mark parses as the same file
/// without the mark.
pub proof fn lemma_mark_is_ignored(text: Seq<char>)
    ensures
        parsed(seq![crate::text::BOM] + text) == parsed(text),
{
    crate::text::lemma_mark_is_dropped(text);
}

} // verus!
