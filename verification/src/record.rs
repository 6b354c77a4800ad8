//! The externally visible book record, and the projection of an extracted
//! field map into it through the fixed label table.

use vstd::prelude::*;
use crate::fieldmap::{FieldMap, lookup};

verus! {

/// A catalog book record. Every descriptive field is optional: absence of
/// a field means "not found on the page", not an error.
#[derive(Debug, Clone, PartialEq, Eq)]
pub struct Model {
    pub id: i64,
    pub title: Option<String>,
    pub author: Option<String>,
    pub image: Option<String>,
    pub isbn: Option<String>,
    pub pubdate: Option<String>,
    pub publisher: Option<String>,
}

/// The label under which the candidate's title is recorded.
pub open spec fn title_key() -> Seq<char> {
    "标题"@
}

/// The label under which the cover image source is recorded.
pub open spec fn cover_key() -> Seq<char> {
    "封面"@
}

/// The label of the ISBN row.
pub open spec fn isbn_key() -> Seq<char> {
    "ISBN"@
}

/// The label of the author row.
pub open spec fn author_key() -> Seq<char> {
    "作者"@
}

/// The label of the publication-date row.
pub open spec fn pubdate_key() -> Seq<char> {
    "出版年"@
}

/// The label of the publisher row.
pub open spec fn publisher_key() -> Seq<char> {
    "出版社"@
}

/// The text of an optional field.
pub open spec fn opt_text(o: Option<String>) -> Option<Seq<char>> {
    match o {
        Some(s) => Some(s@),
        None => None,
    }
}

/// `r` is the projection of the field map `m` through the fixed label
/// table, with each missing key projected to an absent field.
pub open spec fn projects_to(m: Map<Seq<char>, Seq<char>>, r: Model) -> bool {
    &&& r.id == 0
    &&& opt_text(r.title) == lookup(m, title_key())
    &&& opt_text(r.author) == lookup(m, author_key())
    &&& opt_text(r.image) == lookup(m, cover_key())
    &&& opt_text(r.isbn) == lookup(m, isbn_key())
    &&& opt_text(r.pubdate) == lookup(m, pubdate_key())
    &&& opt_text(r.publisher) == lookup(m, publisher_key())
}

/// Project a field map into the record shape. Missing keys become absent
/// fields, never an empty default.
pub fn project_record(map: &FieldMap) -> (r: Model)
    ensures
        projects_to(map@, r),
{
    Model {
        id: 0,
        title: map.get(&"标题".to_owned()),
        author: map.get(&"作者".to_owned()),
        image: map.get(&"封面".to_owned()),
        isbn: map.get(&"ISBN".to_owned()),
        pubdate: map.get(&"出版年".to_owned()),
        publisher: map.get(&"出版社".to_owned()),
    }
}

/// Round trip: a field map holding all six recognized keys projects to a
/// record with all six fields set to exactly those values, uninterpreted.
pub proof fn lemma_projection_round_trip(m: Map<Seq<char>, Seq<char>>, r: Model)
    requires
        projects_to(m, r),
        m.contains_key(title_key()),
        m.contains_key(author_key()),
        m.contains_key(cover_key()),
        m.contains_key(isbn_key()),
        m.contains_key(pubdate_key()),
        m.contains_key(publisher_key()),
    ensures
        opt_text(r.title) == Some(m[title_key()]),
        opt_text(r.author) == Some(m[author_key()]),
        opt_text(r.image) == Some(m[cover_key()]),
        opt_text(r.isbn) == Some(m[isbn_key()]),
        opt_text(r.pubdate) == Some(m[pubdate_key()]),
        opt_text(r.publisher) == Some(m[publisher_key()]),
{
}

} // verus!
