use yd::queries::{Queries, QueryError, Region};
use yd::youdao::{
    extract, format_bullet, format_bullets, format_heading, format_missing_heading,
    parse_catalogue_sentence, parse_maybe, parse_phone_con, parse_simple_dict, parse_word_head,
    parse_word_result_body, WordResult,
};

const FIRE: &str = "<html><body>\
<div class=\"word-head\"><div class=\"title\">fire<span class=\"more\">more</span></div></div>\
<div class=\"phone_con\"><div class=\"per-phone\"><span>/fa\u{26a}\u{259}r/</span></div></div>\
<div class=\"simple dict-module\"><ul>\
<li class=\"word-exp\"><span class=\"pos\">n.</span><span class=\"trans\">flame</span></li>\
<li class=\"word-exp\"><span class=\"pos\">v.</span><span class=\"trans\">shoot</span></li>\
</ul></div>\
<div id=\"catalogue_sentence\"><div class=\"dict-book\"><ul>\
<li><div class=\"sen-eng\">The <b>fire</b> is hot.</div><div class=\"sen-ch\">It burns.</div><div class=\"secondary\">a book</div></li>\
</ul></div></div>\
</body></html>";

const ZLIB: &str = "<html><body>\
<div class=\"maybe\"><p>fier, fore, wire</p></div>\
<div class=\"phone_con\"><div class=\"per-phone\">/x/</div></div>\
</body></html>";

fn queries() -> Queries {
    match Queries::compile() {
        Ok(queries) => queries,
        Err(error) => panic!("a fixed path was refused: {:?}", error),
    }
}

#[test]
fn every_fixed_path_compiles() {
    assert!(Queries::compile().is_ok());
    let regions = [
        Region::WordHead,
        Region::Maybe,
        Region::PerPhone,
        Region::SimpleDict,
        Region::WordExp,
        Region::WordWfsLess,
        Region::Sentence,
        Region::SenEng,
        Region::SenCh,
        Region::Secondary,
    ];
    for region in regions {
        assert!(scraper::Selector::parse(region.css()).is_ok());
    }
    assert_eq!(Region::WordHead.css(), ".word-head .title");
    assert_eq!(Region::Sentence.css(), "#catalogue_sentence .dict-book ul > li");
}

#[test]
fn scenario_found_word() {
    let record = parse_word_result_body("fire", FIRE).unwrap();
    assert!(!record.not_found);
    assert_eq!(record.word_head, "# fire");
    assert_eq!(record.phone_con, "- /fa\u{26a}\u{259}r/");
    assert_eq!(record.simple_dict, "- n. flame\n- v. shoot");
    assert_eq!(
        record.catalogue_sentence,
        "1. The **fire** is hot.\\\n   It burns.\\\n   a book"
    );
    assert_eq!(record.catalogue_sentence.lines().count(), 3);
    assert!(record.catalogue_sentence.starts_with("1. The **fire** is"));
    assert_eq!(record.maybe, "");
}

#[test]
fn scenario_missing_word() {
    let record = parse_word_result_body("fier", ZLIB).unwrap();
    assert!(record.not_found);
    assert_eq!(record.word_head, "# fier:");
    assert!(record.word_head.contains("fier"));
    assert_eq!(record.maybe, "fier, fore, wire");
    assert_eq!(record.phone_con, "");
    assert_eq!(record.simple_dict, "");
    assert_eq!(record.catalogue_sentence, "");
}

#[test]
fn scenario_incomplete_sentence() {
    let html = "<div class=\"word-head\"><div class=\"title\">fire</div></div>\
<div id=\"catalogue_sentence\"><div class=\"dict-book\"><ul>\
<li><div class=\"sen-eng\">First.</div><div class=\"secondary\">a</div></li>\
<li><div class=\"sen-eng\">Second.</div><div class=\"sen-ch\">Zweite.</div><div class=\"secondary\">b</div></li>\
</ul></div></div>";
    let record = parse_word_result_body("fire", html).unwrap();
    assert!(!record.not_found);
    assert_eq!(record.catalogue_sentence, "1. Second.\\\n   Zweite.\\\n   b");
    assert!(!record.catalogue_sentence.contains("2."));
    assert!(!record.catalogue_sentence.contains("First."));
}

#[test]
fn test_parse_normal() {
    let dom = scraper::Html::parse_document(FIRE);
    let queries = queries();
    assert_eq!(parse_word_head(&dom, &queries).unwrap(), "# fire");
    assert_eq!(parse_phone_con(&dom, &queries).unwrap(), "- /fa\u{26a}\u{259}r/");
    assert_eq!(parse_simple_dict(&dom, &queries).unwrap(), "- n. flame\n- v. shoot");
    assert_eq!(
        parse_catalogue_sentence(&dom, &queries).unwrap(),
        "1. The **fire** is hot.\\\n   It burns.\\\n   a book"
    );
    assert_eq!(parse_maybe(&dom, &queries), None);
}

#[test]
fn test_parse_maybe() {
    let dom = scraper::Html::parse_document(ZLIB);
    let queries = queries();
    assert_eq!(parse_maybe(&dom, &queries).unwrap(), "fier, fore, wire");
    assert_eq!(parse_word_head(&dom, &queries), None);
}

#[test]
fn maybe_joins_text_nodes_with_newlines() {
    let dom = scraper::Html::parse_document(
        "<div class=\"maybe\"><p>one</p><p>two</p></div><div class=\"maybe\">other</div>",
    );
    assert_eq!(parse_maybe(&dom, &queries()).unwrap(), "one\ntwo");
}

#[test]
fn empty_page_has_empty_sections() {
    let dom = scraper::Html::parse_document("");
    let queries = queries();
    assert_eq!(parse_word_head(&dom, &queries), None);
    assert_eq!(parse_maybe(&dom, &queries), None);
    assert_eq!(parse_phone_con(&dom, &queries).unwrap(), "");
    assert_eq!(parse_simple_dict(&dom, &queries), None);
    assert_eq!(parse_catalogue_sentence(&dom, &queries).unwrap(), "");
    let record = extract("nothing", &dom, &queries);
    assert!(record.not_found);
    assert_eq!(record.word_head, "# nothing:");
    assert_eq!(record.maybe, "");
}

#[test]
fn sections_are_independent() {
    let only_head = "<div class=\"word-head\"><div class=\"title\">fire</div></div>";
    let record = parse_word_result_body("fire", only_head).unwrap();
    assert!(!record.not_found);
    assert_eq!(record.word_head, "# fire");
    assert_eq!(record.phone_con, "");
    assert_eq!(record.simple_dict, "");
    assert_eq!(record.catalogue_sentence, "");

    let head_and_phone = "<div class=\"word-head\"><div class=\"title\">fire</div></div>\
<div class=\"phone_con\"><div class=\"per-phone\">a<i>b</i></div><div class=\"per-phone\">c</div></div>";
    let record = parse_word_result_body("fire", head_and_phone).unwrap();
    assert_eq!(record.phone_con, "- a b\n- c");
    assert_eq!(record.simple_dict, "");
    assert_eq!(record.catalogue_sentence, "");
}

#[test]
fn found_word_ignores_suggestions() {
    let html = "<div class=\"word-head\"><div class=\"title\">fire</div></div>\
<div class=\"maybe\">fier</div>";
    let record = parse_word_result_body("fire", html).unwrap();
    assert!(!record.not_found);
    assert_eq!(record.maybe, "");
}

#[test]
fn first_title_and_its_first_text_make_the_heading() {
    let html = "<div class=\"word-head\"><div class=\"title\"><b>fi</b>re</div>\
<div class=\"title\">second</div></div>";
    let record = parse_word_result_body("x", html).unwrap();
    assert_eq!(record.word_head, "# fi");
    assert!(!record.not_found);
}

#[test]
fn title_without_text_is_still_a_headword() {
    let html = "<div class=\"word-head\"><div class=\"title\"></div></div>\
<div class=\"phone_con\"><div class=\"per-phone\">/x/</div></div>";
    let record = parse_word_result_body("x", html).unwrap();
    assert!(!record.not_found);
    assert_eq!(record.word_head, "# ");
    assert_eq!(record.phone_con, "- /x/");
}

#[test]
fn title_outside_word_head_is_no_headword() {
    let html = "<div class=\"title\">fire</div>";
    let record = parse_word_result_body("fire", html).unwrap();
    assert!(record.not_found);
    assert_eq!(record.word_head, "# fire:");
}

#[test]
fn simple_dict_appends_less_common_forms() {
    let html = "<div class=\"simple dict-module\">\
<p class=\"word-exp\">n. one</p>\
<p class=\"word-wfs-less\"><span>plural</span><span>fires</span></p>\
<p class=\"word-wfs-less\">ignored</p>\
</div>\
<div class=\"simple dict-module\"><p class=\"word-exp\">other module</p></div>";
    let dom = scraper::Html::parse_document(html);
    assert_eq!(parse_simple_dict(&dom, &queries()).unwrap(), "- n. one\n- plural fires");
}

#[test]
fn simple_dict_without_entries_is_one_empty_text() {
    let dom = scraper::Html::parse_document("<div class=\"simple dict-module\"></div>");
    assert_eq!(parse_simple_dict(&dom, &queries()).unwrap(), "");
}

#[test]
fn sentence_fields_other_than_english_keep_their_markup() {
    let html = "<div id=\"catalogue_sentence\"><div class=\"dict-book\"><ul>\
<li><p class=\"sen-eng\"><b>a</b> and <b>b</b></p><p class=\"sen-ch\">x <b>y</b></p><p class=\"secondary\"><b>z</b></p></li>\
</ul></div></div>";
    let dom = scraper::Html::parse_document(html);
    assert_eq!(
        parse_catalogue_sentence(&dom, &queries()).unwrap(),
        "1. **a** and **b**\\\n   x <b>y</b>\\\n   <b>z</b>"
    );
}

#[test]
fn sentence_items_must_be_children_of_the_list() {
    let html = "<div id=\"catalogue_sentence\"><div class=\"dict-book\"><ul><div>\
<li><p class=\"sen-eng\">a</p><p class=\"sen-ch\">b</p><p class=\"secondary\">c</p></li>\
</div></ul></div></div>";
    let dom = scraper::Html::parse_document(html);
    assert_eq!(parse_catalogue_sentence(&dom, &queries()).unwrap(), "");
}

#[test]
fn lookup_is_repeatable() {
    let first = parse_word_result_body("fire", FIRE).unwrap();
    let second = parse_word_result_body("fire", FIRE).unwrap();
    assert_eq!(first, second);
    let first = parse_word_result_body("fier", ZLIB).unwrap();
    let second = parse_word_result_body("fier", ZLIB).unwrap();
    assert_eq!(first, second);
}

#[test]
fn headings() {
    assert_eq!(format_heading("fire"), "# fire");
    assert_eq!(format_heading(""), "# ");
    assert_eq!(format_missing_heading("fier"), "# fier:");
    assert_eq!(format_missing_heading(""), "# :");
}

#[test]
fn bullets() {
    let texts = vec!["n.".to_string(), "flame".to_string()];
    assert_eq!(format_bullet(&texts), "- n. flame");
    assert_eq!(format_bullet(&Vec::new()), "- ");
    let entries = vec![texts, vec!["v.".to_string()], Vec::new()];
    assert_eq!(format_bullets(&entries), "- n. flame\n- v.\n- ");
    assert_eq!(format_bullets(&Vec::new()), "");
}

#[test]
fn assembled_records() {
    let found = WordResult::found(
        "# fire".to_string(),
        Some("p".to_string()),
        None,
        Some("s".to_string()),
    );
    assert_eq!(
        found,
        WordResult {
            word_head: "# fire".to_string(),
            phone_con: "p".to_string(),
            simple_dict: String::new(),
            catalogue_sentence: "s".to_string(),
            not_found: false,
            maybe: String::new(),
        }
    );
    let missing = WordResult::missing("fier", Some("fire".to_string()));
    assert_eq!(
        missing,
        WordResult {
            word_head: "# fier:".to_string(),
            phone_con: String::new(),
            simple_dict: String::new(),
            catalogue_sentence: String::new(),
            not_found: true,
            maybe: "fire".to_string(),
        }
    );
    assert_eq!(WordResult::missing("fier", None).maybe, "");
}

#[test]
fn display_text_keeps_the_order_of_the_fields() {
    let found = WordResult::found(
        "# fire".to_string(),
        Some("- /f/".to_string()),
        Some("- n. flame".to_string()),
        Some("1. a\\\n   b\\\n   c".to_string()),
    );
    assert_eq!(
        found.display_text(),
        "# fire:\n\n- /f/\n\n- n. flame\n\n1. a\\\n   b\\\n   c\n"
    );
    let missing = WordResult::missing("fier", Some("fire".to_string()));
    assert_eq!(missing.display_text(), "# fier::\n\nfire\n");
}

#[test]
fn query_error_names_its_path() {
    let error = QueryError { region: Region::Maybe };
    assert_eq!(error.message(), "refused as a selector: .maybe");
    let error = QueryError { region: Region::PerPhone };
    assert_eq!(error.message(), "refused as a selector: .phone_con .per-phone");
}
