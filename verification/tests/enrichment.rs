use book_catalog::douban::{
    enrich_start, enrich_step, extract_payload, narrow_fragment, search_url, select_candidate,
    Candidate, EnrichEvent, EnrichStep,
};
use book_catalog::fieldmap::FieldMap;
use book_catalog::page::{derive_key, extract_detail, row_value, LabelRow, PageModel, SiblingNode};
use book_catalog::record::project_record;
use book_catalog::text::{find_str_from, rfind_str_in, strip_char_str, trim_str};

fn text_node(t: &str) -> SiblingNode {
    SiblingNode::Text { text: t.to_string() }
}

fn element_node(is_label: bool, child_count: usize, t: &str) -> SiblingNode {
    SiblingNode::Element { is_label, child_count, text: t.to_string() }
}

#[test]
fn extract_payload_present() {
    let body = "<html><script>window.__DATA__ = \"[{\\\"id\\\":1}]\";</script></html>";
    assert_eq!(extract_payload(body), Some("[{\\\"id\\\":1}]".to_string()));
}

#[test]
fn extract_payload_takes_last_terminator_on_line() {
    let body = "window.__DATA__ = \"a\"; x \"b\"; tail";
    assert_eq!(extract_payload(body), Some("a\"; x \"b".to_string()));
}

#[test]
fn extract_payload_passes_over_unterminated_marker() {
    let body = "window.__DATA__ = \"x\nwindow.__DATA__ = \"y\";";
    assert_eq!(extract_payload(body), Some("y".to_string()));
}

#[test]
fn extract_payload_absent_without_marker() {
    assert_eq!(extract_payload("<html>no data here</html>"), None);
}

#[test]
fn extract_payload_absent_without_terminator_on_line() {
    let body = "window.__DATA__ = \"abc\n\";";
    assert_eq!(extract_payload(body), None);
}

#[test]
fn narrow_fragment_bounds_the_subject_block() {
    let body = "<body><div class=\"subject clearfix\" id=\"i\"><a>x</a><span>s</span><p>t</p></div><div>rest</div></body>";
    assert_eq!(
        narrow_fragment(body),
        Some(
            "<div class=\"subject clearfix\" id=\"i\"><a>x</a><span>s</span><p>t</p></div>"
                .to_string()
        )
    );
}

#[test]
fn narrow_fragment_absent_without_container() {
    assert_eq!(narrow_fragment("<body><div class=\"other\"></div></body>"), None);
    assert_eq!(narrow_fragment("<div class=\"subject clearfix\"><p>no span</p></div>"), None);
}

#[test]
fn search_url_embeds_the_query() {
    assert_eq!(
        search_url("9787544291170"),
        "https://search.douban.com/book/subject_search?search_text=9787544291170&cat=1001"
    );
}

#[test]
fn select_candidate_picks_the_first() {
    let cands = vec![
        Candidate { title: "One".to_string(), url: "http://x/1".to_string() },
        Candidate { title: "Two".to_string(), url: "http://x/2".to_string() },
    ];
    let picked = select_candidate(Some(cands)).expect("a candidate");
    assert_eq!(picked.title, "One");
    assert_eq!(picked.url, "http://x/1");
}

#[test]
fn select_candidate_absent_on_empty_or_failed() {
    assert_eq!(select_candidate(Some(Vec::new())), None);
    assert_eq!(select_candidate(None), None);
}

#[test]
fn trim_removes_surrounding_whitespace() {
    assert_eq!(trim_str("  a b \n"), "a b");
    assert_eq!(trim_str("\t\r\n "), "");
    assert_eq!(trim_str("plain"), "plain");
    assert_eq!(trim_str("\u{3000}\u{00A0}值\u{2009}"), "值");
    assert_eq!(trim_str(" x "), " x ".trim());
}

#[test]
fn strip_char_removes_every_occurrence() {
    assert_eq!(strip_char_str("a:b:c:", ':'), "abc");
    assert_eq!(strip_char_str("none", ':'), "none");
}

#[test]
fn find_first_and_last_occurrence() {
    assert_eq!(find_str_from("abcabc", "bc", 0), Some(1));
    assert_eq!(find_str_from("abcabc", "bc", 2), Some(4));
    assert_eq!(find_str_from("abcabc", "zz", 0), None);
    assert_eq!(rfind_str_in("abcabc", "bc", 0, 5), Some(4));
    assert_eq!(rfind_str_in("abcabc", "bc", 0, 3), Some(1));
}

#[test]
fn field_map_last_write_wins() {
    let mut map = FieldMap::new();
    map.insert("k".to_string(), "first".to_string());
    map.insert("k".to_string(), "second".to_string());
    assert_eq!(map.get(&"k".to_string()), Some("second".to_string()));
    assert_eq!(map.get(&"missing".to_string()), None);
}

#[test]
fn derive_key_strips_spaces_and_colons() {
    assert_eq!(derive_key("出版社:"), "出版社");
    assert_eq!(derive_key(" ISBN : "), "ISBN");
}

#[test]
fn row_value_concatenates_texts_until_next_label() {
    // A label's two plain-text siblings are accumulated, trimmed and
    // colon-stripped; the following label element ends the row.
    let siblings = vec![
        text_node(" A. "),
        text_node(" Author "),
        element_node(true, 0, "出版社:"),
        text_node("NOT THIS"),
    ];
    assert_eq!(row_value(&siblings), "A.Author");
}

#[test]
fn row_value_does_not_bleed_between_rows() {
    let first = LabelRow {
        label: "作者:".to_string(),
        siblings: vec![
            text_node(" A "),
            text_node(" B "),
            element_node(true, 0, "出版社:"),
            text_node("P"),
        ],
    };
    let second = LabelRow { label: "出版社:".to_string(), siblings: vec![text_node(" P ")] };
    let page = PageModel { cover_sources: Vec::new(), rows: vec![first, second] };
    let map = extract_detail("T", &Some(page));
    assert_eq!(map.get(&"作者".to_string()), Some("AB".to_string()));
    assert_eq!(map.get(&"出版社".to_string()), Some("P".to_string()));
}

#[test]
fn row_value_stops_before_element_with_two_children() {
    let siblings = vec![
        text_node(" kept "),
        element_node(false, 2, "not kept"),
        text_node("also not kept"),
    ];
    assert_eq!(row_value(&siblings), "kept");
}

#[test]
fn row_value_keeps_single_child_element_text() {
    let siblings = vec![element_node(false, 1, " inline "), text_node(" tail ")];
    assert_eq!(row_value(&siblings), "inlinetail");
}

#[test]
fn second_cover_image_wins() {
    let page = PageModel {
        cover_sources: vec!["http://img/one.jpg".to_string(), "http://img/two.jpg".to_string()],
        rows: Vec::new(),
    };
    let map = extract_detail("T", &Some(page));
    assert_eq!(map.get(&"封面".to_string()), Some("http://img/two.jpg".to_string()));
}

#[test]
fn projection_round_trip_keeps_all_six_fields() {
    let mut map = FieldMap::new();
    map.insert("标题".to_string(), "t".to_string());
    map.insert("作者".to_string(), "a".to_string());
    map.insert("封面".to_string(), "i".to_string());
    map.insert("ISBN".to_string(), "9787".to_string());
    map.insert("出版年".to_string(), "2001".to_string());
    map.insert("出版社".to_string(), "p".to_string());
    let record = project_record(&map);
    assert_eq!(record.id, 0);
    assert_eq!(record.title, Some("t".to_string()));
    assert_eq!(record.author, Some("a".to_string()));
    assert_eq!(record.image, Some("i".to_string()));
    assert_eq!(record.isbn, Some("9787".to_string()));
    assert_eq!(record.pubdate, Some("2001".to_string()));
    assert_eq!(record.publisher, Some("p".to_string()));
}

#[test]
fn projection_leaves_missing_keys_absent() {
    let map = FieldMap::new();
    let record = project_record(&map);
    assert_eq!(record.id, 0);
    assert_eq!(record.title, None);
    assert_eq!(record.author, None);
    assert_eq!(record.image, None);
    assert_eq!(record.isbn, None);
    assert_eq!(record.pubdate, None);
    assert_eq!(record.publisher, None);
}

#[test]
fn unrecognized_labels_do_not_reach_the_record() {
    let page = PageModel {
        cover_sources: Vec::new(),
        rows: vec![LabelRow { label: "页数:".to_string(), siblings: vec![text_node("300")] }],
    };
    let map = extract_detail("T", &Some(page));
    assert_eq!(map.get(&"页数".to_string()), Some("300".to_string()));
    let record = project_record(&map);
    assert_eq!(record.title, Some("T".to_string()));
    assert_eq!(record.author, None);
}

#[test]
fn enrichment_without_search_payload_yields_no_result() {
    let step = enrich_start("9787544291170".to_string());
    let done = enrich_step(step, EnrichEvent::SearchBody { body: None });
    assert!(matches!(done, EnrichStep::Done { result: None }));

    let step = enrich_start("9787544291170".to_string());
    let done = enrich_step(
        step,
        EnrichEvent::SearchBody { body: Some("<html>no assignment</html>".to_string()) },
    );
    assert!(matches!(done, EnrichStep::Done { result: None }));
}

#[test]
fn enrichment_without_candidates_yields_no_result() {
    let step = enrich_start("x".to_string());
    let step = enrich_step(
        step,
        EnrichEvent::SearchBody { body: Some("window.__DATA__ = \"[]\";".to_string()) },
    );
    assert!(matches!(&step, EnrichStep::NeedResolve { payload } if payload == "[]"));
    let done = enrich_step(step, EnrichEvent::Candidates { candidates: Some(Vec::new()) });
    assert!(matches!(done, EnrichStep::Done { result: None }));

    let step = enrich_start("x".to_string());
    let step = enrich_step(
        step,
        EnrichEvent::SearchBody { body: Some("window.__DATA__ = \"[]\";".to_string()) },
    );
    let done = enrich_step(step, EnrichEvent::Candidates { candidates: None });
    assert!(matches!(done, EnrichStep::Done { result: None }));
}

#[test]
fn enrichment_end_to_end_scenario() {
    let step = enrich_start("9787544291170".to_string());

    let body = "window.__DATA__ = \"[{...}]\";";
    let step = enrich_step(step, EnrichEvent::SearchBody { body: Some(body.to_string()) });
    assert!(matches!(&step, EnrichStep::NeedResolve { payload } if payload == "[{...}]"));

    let cands =
        vec![Candidate { title: "T".to_string(), url: "http://x/d".to_string() }];
    let step = enrich_step(step, EnrichEvent::Candidates { candidates: Some(cands) });
    assert!(
        matches!(&step, EnrichStep::NeedDetail { candidate } if candidate.url == "http://x/d")
    );

    let page = PageModel {
        cover_sources: Vec::new(),
        rows: vec![LabelRow {
            label: "作者".to_string(),
            siblings: vec![text_node("A. Author")],
        }],
    };
    let done = enrich_step(step, EnrichEvent::DetailPage { page: Some(page) });
    match done {
        EnrichStep::Done { result: Some(record) } => {
            assert_eq!(record.title, Some("T".to_string()));
            assert_eq!(record.author, Some("A. Author".to_string()));
            assert_eq!(record.image, None);
            assert_eq!(record.isbn, None);
            assert_eq!(record.pubdate, None);
            assert_eq!(record.publisher, None);
        }
        other => panic!("expected a finished record, got {:?}", other),
    }
}

#[test]
fn enrichment_detail_fetch_failure_degrades_to_seeded_title() {
    let step = EnrichStep::NeedDetail {
        candidate: Candidate { title: "T".to_string(), url: "http://x/d".to_string() },
    };
    let done = enrich_step(step, EnrichEvent::DetailPage { page: None });
    match done {
        EnrichStep::Done { result: Some(record) } => {
            assert_eq!(record.title, Some("T".to_string()));
            assert_eq!(record.author, None);
        }
        other => panic!("expected a finished record, got {:?}", other),
    }
}
