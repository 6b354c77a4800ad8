//! The enrichment pipeline: given an ISBN, locate a matching book
//! listing on the remote catalog site, follow it to a detail page, and
//! extract a structured record.
//!
//! The pipeline is a strict three-stage chain — search resolver,
//! candidate selector, detail extractor — and every stage may
//! short-circuit to absence, which is the normal, expected outcome, not
//! an error. The outbound HTTP calls are the caller's: the pipeline is
//! driven as a step machine whose state names the next call to make and
//! whose events carry what the call produced, so that every decision
//! between calls is made (and verified) here.

use vstd::prelude::*;
use vstd::string::*;
use crate::page::{detail_map_spec, extract_detail, PageModel};
use crate::record::{projects_to, Model};
use crate::text::{
    find_str_from, first_match_from, last_match_in, lemma_first_match_from, rfind_str_in,
};

verus! {

/// The assignment that introduces the embedded search payload.
pub open spec fn data_marker() -> Seq<char> {
    "window.__DATA__ = \""@
}

/// The terminator that closes the embedded search payload.
pub open spec fn data_close() -> Seq<char> {
    "\";"@
}

/// End of the line that begins at or after `from`: the position of the
/// first newline, or the end of the text.
pub open spec fn line_end(s: Seq<char>, from: int) -> int {
    match first_match_from(s, "\n"@, from) {
        Some(e) => e,
        None => s.len() as int,
    }
}

/// The payload captured at the first marker occurrence at or after
/// `from` whose line also holds a terminator: the text between that
/// marker and the last terminator on its line. A marker whose line has
/// no terminator is passed over, and `None` means no occurrence is left.
pub open spec fn payload_from(s: Seq<char>, from: int) -> Option<Seq<char>>
    decreases s.len() - from,
    when from >= 0
    via payload_from_decreases
{
    match first_match_from(s, data_marker(), from) {
        None => None,
        Some(m) => {
            let start = m + data_marker().len();
            let eol = line_end(s, start);
            match last_match_in(s, data_close(), start, eol) {
                None => payload_from(s, m + 1),
                Some(j) => Some(s.subrange(start, j)),
            }
        },
    }
}

#[via_fn]
proof fn payload_from_decreases(s: Seq<char>, from: int) {
    reveal_strlit("window.__DATA__ = \"");
    lemma_first_match_from(s, data_marker(), from);
}

/// The payload captured from a search-page body, or `None` where the
/// data-assignment pattern does not occur.
pub open spec fn payload_spec(s: Seq<char>) -> Option<Seq<char>> {
    payload_from(s, 0)
}

/// Scan a search-page body for the embedded data assignment and return
/// the captured payload. A body without the pattern yields `None`, the
/// dominant, expected outcome.
pub fn extract_payload(body: &str) -> (r: Option<String>)
    ensures
        match r {
            Some(p) => payload_spec(body@) == Some(p@),
            None => payload_spec(body@) is None,
        },
{
    let blen = body.unicode_len();
    let mut pos: usize = 0;
    loop
        invariant
            blen == body@.len(),
            payload_from(body@, 0) == payload_from(body@, pos as int),
        decreases blen + 1 - pos,
    {
        let marker = "window.__DATA__ = \"";
        let m = match find_str_from(body, marker, pos) {
            Some(m) => m,
            None => {
                return None;
            },
        };
        proof {
            reveal_strlit("window.__DATA__ = \"");
            lemma_first_match_from(body@, data_marker(), pos as int);
        }
        let start = m + marker.unicode_len();
        let eol = match find_str_from(body, "\n", start) {
            Some(e) => e,
            None => blen,
        };
        proof {
            lemma_first_match_from(body@, "\n"@, start as int);
        }
        match rfind_str_in(body, "\";", start, eol) {
            Some(j) => {
                return Some(body.substring_char(start, j).to_owned());
            },
            None => {
                pos = m + 1;
            },
        }
    }
}

/// The opening of the subject info container on a detail page.
pub open spec fn subject_open() -> Seq<char> {
    "<div class=\"subject clearfix\""@
}

/// The bounded fragment located in a detail-page body: from the subject
/// container's opening tag, through the end of that tag, past the first
/// following `span` opening, to the end of the first closing `div` after
/// it — or `None` where that pattern does not occur.
pub open spec fn fragment_spec(s: Seq<char>) -> Option<Seq<char>> {
    match first_match_from(s, subject_open(), 0) {
        None => None,
        Some(d) => match first_match_from(s, ">"@, d + subject_open().len()) {
            None => None,
            Some(g) => match first_match_from(s, "<span>"@, g + 1) {
                None => None,
                Some(sp) => match first_match_from(s, "</div>"@, sp + "<span>"@.len()) {
                    None => None,
                    Some(c) => Some(s.subrange(d, c + "</div>"@.len())),
                },
            },
        },
    }
}

/// Narrow a detail-page body to the subject info fragment, so that the
/// extraction heuristics only see the relevant region. A body where the
/// pattern does not match yields `None`: extraction is then aborted for
/// the page and only the seeded title is recorded.
pub fn narrow_fragment(body: &str) -> (r: Option<String>)
    ensures
        match r {
            Some(f) => fragment_spec(body@) == Some(f@),
            None => fragment_spec(body@) is None,
        },
{
    let blen = body.unicode_len();
    let opening = "<div class=\"subject clearfix\"";
    let d = match find_str_from(body, opening, 0) {
        Some(d) => d,
        None => {
            return None;
        },
    };
    proof {
        lemma_first_match_from(body@, subject_open(), 0);
    }
    let g = match find_str_from(body, ">", d + opening.unicode_len()) {
        Some(g) => g,
        None => {
            return None;
        },
    };
    proof {
        reveal_strlit(">");
        lemma_first_match_from(body@, ">"@, d + subject_open().len());
    }
    let sp = match find_str_from(body, "<span>", g + 1) {
        Some(sp) => sp,
        None => {
            return None;
        },
    };
    proof {
        lemma_first_match_from(body@, "<span>"@, g + 1);
    }
    let c = match find_str_from(body, "</div>", sp + "<span>".unicode_len()) {
        Some(c) => c,
        None => {
            return None;
        },
    };
    proof {
        lemma_first_match_from(body@, "</div>"@, sp + "<span>"@.len());
    }
    let end = c + "</div>".unicode_len();
    Some(body.substring_char(d, end).to_owned())
}

/// The fixed part of the search endpoint URL before the query.
pub open spec fn search_url_prefix() -> Seq<char> {
    "https://search.douban.com/book/subject_search?search_text="@
}

/// The fixed part of the search endpoint URL after the query.
pub open spec fn search_url_suffix() -> Seq<char> {
    "&cat=1001"@
}

/// The search endpoint URL for a query string (the ISBN).
pub fn search_url(query: &str) -> (r: String)
    ensures
        r@ == search_url_prefix() + query@ + search_url_suffix(),
{
    let mut url = "https://search.douban.com/book/subject_search?search_text=".to_owned();
    url.append(query);
    url.append("&cat=1001");
    url
}

/// One search result considered for enrichment: its title and the URL
/// of its detail page.
#[derive(Debug, Clone, PartialEq, Eq)]
pub struct Candidate {
    pub title: String,
    pub url: String,
}

/// Choose the best (first) candidate of the auxiliary resolver's
/// response; the remote service is trusted to order by relevance.
/// `None` stands for a failed request or a response that did not parse
/// as the expected shape, and an empty array also selects nothing.
pub fn select_candidate(candidates: Option<Vec<Candidate>>) -> (r: Option<Candidate>)
    ensures
        match candidates {
            None => r is None,
            Some(v) => if v@.len() == 0 {
                r is None
            } else {
                r == Some(v@[0])
            },
        },
{
    match candidates {
        None => None,
        Some(mut v) => if v.len() > 0 {
            Some(v.remove(0))
        } else {
            None
        },
    }
}

/// The state of one enrichment request between outbound calls: which
/// call the caller must make next, or the finished result.
#[derive(Debug)]
pub enum EnrichStep {
    /// Fetch the search page for this query next.
    NeedSearch { query: String },
    /// Post this payload to the auxiliary resolver next.
    NeedResolve { payload: String },
    /// Fetch this candidate's detail page next.
    NeedDetail { candidate: Candidate },
    /// The pipeline is finished.
    Done { result: Option<Model> },
}

/// What one outbound call produced. `None` stands for a transport
/// failure or a malformed response, both of which the pipeline treats
/// as absence, never as a surfaced fault.
pub enum EnrichEvent {
    /// The search page body, if the fetch succeeded.
    SearchBody { body: Option<String> },
    /// The resolver response parsed as a candidate array, if the
    /// request succeeded and the response had the expected shape.
    Candidates { candidates: Option<Vec<Candidate>> },
    /// The candidate's detail page, narrowed and parsed into the page
    /// model, if the fetch succeeded and the fragment pattern matched.
    DetailPage { page: Option<PageModel> },
}

/// How one step of the pipeline relates its state, the event handed in,
/// and the next state. A search body with no embedded payload, and a
/// resolver response with no candidate, finish with no result; a detail
/// event always finishes with a record, sparse where the page gave
/// nothing. A mismatched event, or stepping a finished pipeline,
/// finishes with no result.
pub open spec fn step_rel(pre: EnrichStep, event: EnrichEvent, post: EnrichStep) -> bool {
    match (pre, event) {
        (EnrichStep::NeedSearch { .. }, EnrichEvent::SearchBody { body }) => match body {
            None => post == (EnrichStep::Done { result: None }),
            Some(b) => match payload_spec(b@) {
                None => post == (EnrichStep::Done { result: None }),
                Some(p) => post matches EnrichStep::NeedResolve { payload } && payload@ == p,
            },
        },
        (EnrichStep::NeedResolve { .. }, EnrichEvent::Candidates { candidates }) => match candidates {
            None => post == (EnrichStep::Done { result: None }),
            Some(v) => if v@.len() == 0 {
                post == (EnrichStep::Done { result: None })
            } else {
                post == (EnrichStep::NeedDetail { candidate: v@[0] })
            },
        },
        (EnrichStep::NeedDetail { candidate }, EnrichEvent::DetailPage { page }) => {
            post matches EnrichStep::Done { result: Some(m) } && projects_to(
                detail_map_spec(candidate.title@, page),
                m,
            )
        },
        _ => post == (EnrichStep::Done { result: None }),
    }
}

/// Begin an enrichment request for a query string (the ISBN).
pub fn enrich_start(query: String) -> (r: EnrichStep)
    ensures
        r == (EnrichStep::NeedSearch { query }),
{
    EnrichStep::NeedSearch { query }
}

/// Advance the pipeline by the outcome of one outbound call.
pub fn enrich_step(step: EnrichStep, event: EnrichEvent) -> (r: EnrichStep)
    ensures
        step_rel(step, event, r),
{
    match (step, event) {
        (EnrichStep::NeedSearch { .. }, EnrichEvent::SearchBody { body }) => match body {
            None => EnrichStep::Done { result: None },
            Some(b) => match extract_payload(b.as_str()) {
                None => EnrichStep::Done { result: None },
                Some(p) => EnrichStep::NeedResolve { payload: p },
            },
        },
        (EnrichStep::NeedResolve { .. }, EnrichEvent::Candidates { candidates }) => match select_candidate(
            candidates,
        ) {
            None => EnrichStep::Done { result: None },
            Some(c) => EnrichStep::NeedDetail { candidate: c },
        },
        (EnrichStep::NeedDetail { candidate }, EnrichEvent::DetailPage { page }) => {
            let map = extract_detail(candidate.title.as_str(), &page);
            let rec = crate::record::project_record(&map);
            EnrichStep::Done { result: Some(rec) }
        },
        (_, _) => EnrichStep::Done { result: None },
    }
}

/// A complete run of the pipeline, stepped through its three stages,
/// finishes with no result exactly when the search body held no payload
/// or the resolver returned no candidate; otherwise it finishes with
/// the record projected from the detail map for the first candidate's
/// title — one record or no result, never a partial failure.
pub proof fn lemma_enrich_run(
    start: EnrichStep,
    body: Option<String>,
    candidates: Option<Vec<Candidate>>,
    page: Option<PageModel>,
    mid1: EnrichStep,
    mid2: EnrichStep,
    end: EnrichStep,
)
    requires
        start is NeedSearch,
        step_rel(start, EnrichEvent::SearchBody { body }, mid1),
        step_rel(mid1, EnrichEvent::Candidates { candidates }, mid2),
        step_rel(mid2, EnrichEvent::DetailPage { page }, end),
    ensures
        (body is Some ==> payload_spec(body->Some_0@) is None) ==> end == (EnrichStep::Done {
            result: None::<Model>,
        }),
        (body is Some && payload_spec(body->Some_0@) is Some && (candidates is Some
            ==> candidates->Some_0@.len() == 0)) ==> end == (EnrichStep::Done {
            result: None::<Model>,
        }),
        (body is Some && payload_spec(body->Some_0@) is Some && candidates is Some
            && candidates->Some_0@.len() > 0) ==> (end matches EnrichStep::Done {
            result: Some(m),
        } && projects_to(detail_map_spec(candidates->Some_0@[0].title@, page), m)),
{
}

/// For all queries with no matching search payload — a failed fetch, or
/// a body without the embedded data assignment — enrichment finishes
/// with no result: never an error, never a partially constructed
/// record.
pub proof fn lemma_no_payload_no_result(pre: EnrichStep, event: EnrichEvent, post: EnrichStep)
    requires
        pre is NeedSearch,
        event matches EnrichEvent::SearchBody { body } && (body matches Some(b) ==> payload_spec(
            b@,
        ) is None),
        step_rel(pre, event, post),
    ensures
        post == (EnrichStep::Done { result: None::<Model> }),
{
}

/// For all resolver responses with an empty candidate array — or none
/// at all — enrichment finishes with no result.
pub proof fn lemma_no_candidate_no_result(pre: EnrichStep, event: EnrichEvent, post: EnrichStep)
    requires
        pre is NeedResolve,
        event matches EnrichEvent::Candidates { candidates } && (candidates matches Some(v)
            ==> v@.len() == 0),
        step_rel(pre, event, post),
    ensures
        post == (EnrichStep::Done { result: None::<Model> }),
{
}

} // verus!
