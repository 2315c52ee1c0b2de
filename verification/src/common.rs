//! Plain identifier and value types shared by every record kind, together
//! with their spec-level views and equality-preserving clones.
use vstd::prelude::*;

verus! {

/// The view of each element of a sequence.
pub open spec fn seq_view<T: View>(s: Seq<T>) -> Seq<T::V> {
    s.map_values(|x: T| x@)
}

/// The view of an optional value.
pub open spec fn opt_view<T: View>(o: Option<T>) -> Option<T::V> {
    match o {
        Some(x) => Some(x@),
        None => None,
    }
}

/// Whether an association list keyed by its first components holds at most
/// one entry per key: the shape a key-value map demands of it.
pub open spec fn unique_keys<K, V>(s: Seq<(K, V)>) -> bool {
    forall|i: int, j: int| 0 <= i < j < s.len() ==> (#[trigger] s[i]).0 != (#[trigger] s[j]).0
}

/// Whether each locale appears at most once in a localized-string list,
/// which stands in for a locale-keyed map.
pub open spec fn unique_locals(s: Seq<StringWithLocalView>) -> bool {
    forall|i: int, j: int|
        0 <= i < j < s.len() ==> (#[trigger] s[i]).local != (#[trigger] s[j]).local
}

/// Whether each locale appears at most once in a localized-document list.
pub open spec fn unique_doc_locals(s: Seq<LocalizedDocumentView>) -> bool {
    forall|i: int, j: int|
        0 <= i < j < s.len() ==> (#[trigger] s[i]).local != (#[trigger] s[j]).local
}

/// Identifier of the user performing a mutating call; recorded in the audit log.
#[derive(Copy, Clone, Debug, PartialOrd, Ord, PartialEq, Eq, Hash, Structural)]
pub struct UserId(pub usize);

/// Identifier of a stored file (image, document).
#[derive(Copy, Clone, Debug, PartialOrd, Ord, PartialEq, Eq, Hash, Structural)]
pub struct FileId(pub usize);

/// A locale code. The surrounding system interns these strings; the store
/// only carries them, so a plain string holds the same information.
#[derive(Debug, PartialOrd, Ord, PartialEq, Eq, Hash)]
pub struct LocalId(pub String);

impl View for LocalId {
    type V = Seq<char>;

    open spec fn view(&self) -> Seq<char> {
        self.0@
    }
}

impl Clone for LocalId {
    fn clone(&self) -> (r: Self)
        ensures
            r == *self,
    {
        LocalId(self.0.clone())
    }
}

/// A location code, carried like `LocalId`.
#[derive(Debug, PartialOrd, Ord, PartialEq, Eq, Hash)]
pub struct LocationId(pub String);

impl View for LocationId {
    type V = Seq<char>;

    open spec fn view(&self) -> Seq<char> {
        self.0@
    }
}

impl Clone for LocationId {
    fn clone(&self) -> (r: Self)
        ensures
            r == *self,
    {
        LocationId(self.0.clone())
    }
}

/// A string together with the locale it is written in.
#[derive(Debug, PartialOrd, Ord, PartialEq, Eq, Hash)]
pub struct StringWithLocal {
    pub local: LocalId,
    pub content: String,
}

#[verifier::ext_equal]
pub struct StringWithLocalView {
    pub local: Seq<char>,
    pub content: Seq<char>,
}

impl View for StringWithLocal {
    type V = StringWithLocalView;

    open spec fn view(&self) -> StringWithLocalView {
        StringWithLocalView { local: self.local@, content: self.content@ }
    }
}

impl Clone for StringWithLocal {
    fn clone(&self) -> (r: Self)
        ensures
            r == *self,
    {
        StringWithLocal { local: self.local.clone(), content: self.content.clone() }
    }
}

/// How precisely a date is known.
#[derive(Copy, Clone, Debug, PartialOrd, PartialEq, Eq, Hash, Structural)]
pub enum DatePrecision {
    Year,
    Month,
    Day,
}

/// A calendar date whose unknown components are meaningful only up to
/// `precision`.
#[derive(Copy, Clone, Debug, PartialOrd, PartialEq, Eq, Hash, Structural)]
pub struct DateWithPrecision {
    pub year: u16,
    pub month: u16,
    pub day: u16,
    pub precision: DatePrecision,
}

/// A recurring date without a year.
#[derive(Copy, Clone, Debug, PartialOrd, PartialEq, Eq, Hash, Structural)]
pub struct Birthday {
    pub month: u16,
    pub day: u16,
}

/// One localized string attached to a record; the list of these stands in for
/// a locale-keyed map.
pub type LocalizedStrings = Vec<StringWithLocal>;

/// One localized document reference.
#[derive(Debug, PartialOrd, Ord, PartialEq, Eq, Hash)]
pub struct LocalizedDocument {
    pub local: LocalId,
    pub file: FileId,
}

#[verifier::ext_equal]
pub struct LocalizedDocumentView {
    pub local: Seq<char>,
    pub file: FileId,
}

impl View for LocalizedDocument {
    type V = LocalizedDocumentView;

    open spec fn view(&self) -> LocalizedDocumentView {
        LocalizedDocumentView { local: self.local@, file: self.file }
    }
}

impl Clone for LocalizedDocument {
    fn clone(&self) -> (r: Self)
        ensures
            r == *self,
    {
        LocalizedDocument { local: self.local.clone(), file: self.file }
    }
}

/// The locale-keyed document references of one record.
pub type LocalizedDocuments = Vec<LocalizedDocument>;

/// An image file together with localized captions.
#[derive(Debug, PartialEq, Eq, Hash)]
pub struct Image {
    pub id: FileId,
    pub descriptions: LocalizedStrings,
}

#[verifier::ext_equal]
pub struct ImageView {
    pub id: FileId,
    pub descriptions: Seq<StringWithLocalView>,
}

impl ImageView {
    /// The map shape of the captions: one per locale.
    pub open spec fn wf(&self) -> bool {
        unique_locals(self.descriptions)
    }
}

impl View for Image {
    type V = ImageView;

    open spec fn view(&self) -> ImageView {
        ImageView {
            id: self.id,
            descriptions: self.descriptions@.map_values(|s: StringWithLocal| s@),
        }
    }
}

impl Clone for Image {
    fn clone(&self) -> (r: Self)
        ensures
            r@ == self@,
    {
        let descriptions = self.descriptions.clone();
        proof {
            assert(descriptions@ =~= self.descriptions@);
        }
        Image { id: self.id, descriptions }
    }
}

/// A URL, optionally with an archived copy.
#[derive(Debug, PartialOrd, Ord, PartialEq, Eq, Hash)]
pub struct Url {
    pub url: String,
    pub archived: Option<String>,
}

#[verifier::ext_equal]
pub struct UrlView {
    pub url: Seq<char>,
    pub archived: Option<Seq<char>>,
}

impl View for Url {
    type V = UrlView;

    open spec fn view(&self) -> UrlView {
        UrlView {
            url: self.url@,
            archived: match self.archived {
                Some(s) => Some(s@),
                None => None,
            },
        }
    }
}

impl Clone for Url {
    fn clone(&self) -> (r: Self)
        ensures
            r == *self,
    {
        Url {
            url: self.url.clone(),
            archived: match &self.archived {
                Some(s) => Some(s.clone()),
                None => None,
            },
        }
    }
}

} // verus!
