//! The detail-page model and the label-driven field extraction.
//!
//! The source site renders each metadata row as a label element followed
//! by loose, unwrapped sibling content (text and inline elements) rather
//! than a clean key/value container, so extraction walks a label's
//! subsequent siblings and accumulates their text until a boundary: a
//! fresh label, or an element with two or more children, signals that the
//! next row has begun. The model below holds exactly what that walk
//! reads of each node, independent of any HTML library's node types.

use vstd::prelude::*;
use vstd::string::*;
use crate::fieldmap::FieldMap;
use crate::record::{cover_key, title_key};
use crate::text::{strip_char_spec, strip_char_str, trim_spec, trim_str};

verus! {

/// One node following a label in the info block: an element (with
/// whether it carries the label class, how many children it has, and its
/// flattened inner text) or a plain text node.
pub enum SiblingNode {
    Element { is_label: bool, child_count: usize, text: String },
    Text { text: String },
}

/// A label element together with the sibling nodes that follow it.
pub struct LabelRow {
    pub label: String,
    pub siblings: Vec<SiblingNode>,
}

/// What detail extraction reads of a parsed detail-page fragment: the
/// source URLs of the cover images in the cover container, in document
/// order, and each label row of the info block.
pub struct PageModel {
    pub cover_sources: Vec<String>,
    pub rows: Vec<LabelRow>,
}

/// The text carried by a sibling node.
pub open spec fn node_text_spec(n: SiblingNode) -> Seq<char> {
    match n {
        SiblingNode::Element { text, .. } => text@,
        SiblingNode::Text { text } => text@,
    }
}

/// A sibling that ends its row: another label, or an element with two or
/// more children.
pub open spec fn is_boundary(n: SiblingNode) -> bool {
    n matches SiblingNode::Element { is_label, child_count, .. } && (is_label || child_count >= 2)
}

/// The text accumulated from a label's siblings: each node's text,
/// trimmed, in order, stopping at the first boundary.
pub open spec fn accum_spec(sibs: Seq<SiblingNode>) -> Seq<char>
    decreases sibs.len(),
{
    if sibs.len() == 0 {
        Seq::empty()
    } else if is_boundary(sibs.first()) {
        Seq::empty()
    } else {
        trim_spec(node_text_spec(sibs.first())) + accum_spec(sibs.drop_first())
    }
}

/// The key derived from a label's text: spaces and colons removed.
pub open spec fn key_of_label(label: Seq<char>) -> Seq<char> {
    strip_char_spec(strip_char_spec(label, ' '), ':')
}

/// The value recorded for a row: the accumulated sibling text with
/// colons removed.
pub open spec fn row_value_spec(sibs: Seq<SiblingNode>) -> Seq<char> {
    strip_char_spec(accum_spec(sibs), ':')
}

/// The field map after recording each cover source in order under the
/// cover key, so that the last one wins.
pub open spec fn insert_covers(m: Map<Seq<char>, Seq<char>>, covers: Seq<String>) -> Map<
    Seq<char>,
    Seq<char>,
>
    decreases covers.len(),
{
    if covers.len() == 0 {
        m
    } else {
        insert_covers(m, covers.drop_last()).insert(cover_key(), covers.last()@)
    }
}

/// The field map after recording each label row in order, each under its
/// derived key.
pub open spec fn insert_rows(m: Map<Seq<char>, Seq<char>>, rows: Seq<LabelRow>) -> Map<
    Seq<char>,
    Seq<char>,
>
    decreases rows.len(),
{
    if rows.len() == 0 {
        m
    } else {
        insert_rows(m, rows.drop_last()).insert(
            key_of_label(rows.last().label@),
            row_value_spec(rows.last().siblings@),
        )
    }
}

/// The complete field map extracted for a candidate title and an
/// optionally parsed page fragment: the title seeded first, then the
/// cover sources, then the label rows.
pub open spec fn detail_map_spec(title: Seq<char>, page: Option<PageModel>) -> Map<
    Seq<char>,
    Seq<char>,
> {
    let seeded = Map::<Seq<char>, Seq<char>>::empty().insert(title_key(), title);
    match page {
        None => seeded,
        Some(p) => insert_rows(insert_covers(seeded, p.cover_sources@), p.rows@),
    }
}

fn is_boundary_node(n: &SiblingNode) -> (r: bool)
    ensures
        r == is_boundary(*n),
{
    match n {
        SiblingNode::Element { is_label, child_count, .. } => *is_label || *child_count >= 2,
        SiblingNode::Text { .. } => false,
    }
}

fn node_text<'a>(n: &'a SiblingNode) -> (r: &'a String)
    ensures
        r@ == node_text_spec(*n),
{
    match n {
        SiblingNode::Element { text, .. } => text,
        SiblingNode::Text { text } => text,
    }
}

/// The value of one label row: its siblings' text accumulated up to the
/// first boundary, trimmed piecewise, with colons removed.
pub fn row_value(siblings: &Vec<SiblingNode>) -> (r: String)
    ensures
        r@ == row_value_spec(siblings@),
{
    let n = siblings.len();
    proof {
        assert(siblings@.skip(0) =~= siblings@);
    }
    let mut acc = String::new();
    let mut i: usize = 0;
    while i < n && !is_boundary_node(&siblings[i])
        invariant
            n == siblings@.len(),
            i <= n,
            accum_spec(siblings@) == acc@ + accum_spec(siblings@.skip(i as int)),
        decreases n - i,
    {
        proof {
            assert(siblings@.skip(i as int).first() == siblings@[i as int]);
            assert(siblings@.skip(i as int).drop_first() =~= siblings@.skip(i as int + 1));
        }
        let piece = trim_str(node_text(&siblings[i]).as_str());
        acc.append(piece.as_str());
        i += 1;
    }
    proof {
        if i < n {
            assert(siblings@.skip(i as int).first() == siblings@[i as int]);
        }
        assert(acc@ == accum_spec(siblings@));
    }
    strip_char_str(acc.as_str(), ':')
}

/// The key of one label row: the label's text with spaces and colons
/// removed.
pub fn derive_key(label: &str) -> (r: String)
    ensures
        r@ == key_of_label(label@),
{
    let spaceless = strip_char_str(label, ' ');
    strip_char_str(spaceless.as_str(), ':')
}

/// Build the field map for a detail page: the candidate's title seeded
/// under the title key, then each cover source under the cover key (the
/// last one wins), then each label row under its derived key. With no
/// parsed fragment, only the title is recorded.
pub fn extract_detail(title: &str, page: &Option<PageModel>) -> (r: FieldMap)
    ensures
        r@ == detail_map_spec(title@, *page),
{
    let mut map = FieldMap::new();
    map.insert("标题".to_owned(), title.to_owned());
    match page {
        None => map,
        Some(p) => {
            let ghost seeded = map@;
            let n = p.cover_sources.len();
            let mut i: usize = 0;
            while i < n
                invariant
                    n == p.cover_sources@.len(),
                    i <= n,
                    map@ == insert_covers(seeded, p.cover_sources@.take(i as int)),
                decreases n - i,
            {
                proof {
                    assert(p.cover_sources@.take(i as int + 1).drop_last() =~= p.cover_sources@.take(
                        i as int,
                    ));
                    assert(p.cover_sources@.take(i as int + 1).last() == p.cover_sources@[i as int]);
                }
                map.insert("封面".to_owned(), p.cover_sources[i].clone());
                i += 1;
            }
            proof {
                assert(p.cover_sources@.take(n as int) =~= p.cover_sources@);
            }
            let ghost covered = map@;
            let m = p.rows.len();
            let mut j: usize = 0;
            while j < m
                invariant
                    m == p.rows@.len(),
                    j <= m,
                    map@ == insert_rows(covered, p.rows@.take(j as int)),
                decreases m - j,
            {
                proof {
                    assert(p.rows@.take(j as int + 1).drop_last() =~= p.rows@.take(j as int));
                    assert(p.rows@.take(j as int + 1).last() == p.rows@[j as int]);
                }
                let key = derive_key(p.rows[j].label.as_str());
                let val = row_value(&p.rows[j].siblings);
                map.insert(key, val);
                j += 1;
            }
            proof {
                assert(p.rows@.take(m as int) =~= p.rows@);
            }
            map
        },
    }
}

/// A boundary sibling ends the row: nothing at or after it contributes
/// to the accumulated value.
pub proof fn lemma_row_boundary(sibs: Seq<SiblingNode>, i: int)
    requires
        0 <= i < sibs.len(),
        is_boundary(sibs[i]),
    ensures
        accum_spec(sibs) == accum_spec(sibs.take(i)),
    decreases i,
{
    if i == 0 {
        assert(sibs.take(0) =~= Seq::<SiblingNode>::empty());
    } else if is_boundary(sibs.first()) {
        assert(sibs.take(i).first() == sibs.first());
    } else {
        lemma_row_boundary(sibs.drop_first(), i - 1);
        assert(sibs.drop_first().take(i - 1) =~= sibs.take(i).drop_first());
        assert(sibs.take(i).first() == sibs.first());
    }
}

/// With at least one cover image on the page, the recorded cover source
/// is the last one in document order.
pub proof fn lemma_last_cover_wins(m: Map<Seq<char>, Seq<char>>, covers: Seq<String>)
    requires
        covers.len() > 0,
    ensures
        crate::fieldmap::lookup(insert_covers(m, covers), cover_key()) == Some(covers.last()@),
{
}

} // verus!
