//! The extraction engine: the sections of a result page, each turned into
//! display-ready text, and the record assembled from them.

use vstd::prelude::*;
use vstd::string::*;
use crate::dom::{
    document_matches, element_markup, element_matches, element_texts, inner_markup,
    parse_document, parsed_document, select_in_document, select_in_element, text_nodes,
};
use crate::queries::{all_compile, first_refused, Queries, QueryError, Region};
use crate::sentences::{format_sentences, sentence_block, text_of, SentenceParts, SentenceText};
use crate::text::{join, joined};

verus! {

/// One suggestion of the suggest service.
#[derive(Clone, Debug, PartialEq, Eq)]
pub struct Entry {
    pub explain: String,
    pub entry: String,
}

/// The payload of a suggest response.
#[derive(Clone, Debug, PartialEq, Eq)]
pub struct Data {
    pub entries: Vec<Entry>,
    pub query: String,
    pub language: String,
    pub data_type: String,
}

/// The status of a suggest response.
#[derive(Clone, Debug, PartialEq, Eq)]
pub struct ResultData {
    pub msg: String,
    pub code: i32,
}

/// A response of the suggest service.
#[derive(Clone, Debug, PartialEq, Eq)]
pub struct ApiResponse {
    pub result: ResultData,
    pub data: Data,
}

/// The definition record of one lookup. Every content field is empty where
/// its section is absent from the page.
#[derive(Clone, Debug, PartialEq, Eq)]
pub struct WordResult {
    /// The heading: taken from the page's title where the word was found,
    /// made from the queried word where it was not.
    pub word_head: String,
    /// The pronunciations, one bulleted line each.
    pub phone_con: String,
    /// The short definitions, one bulleted line each.
    pub simple_dict: String,
    /// The example sentences, numbered.
    pub catalogue_sentence: String,
    /// Whether the page has no entry for the queried word.
    pub not_found: bool,
    /// The "maybe you meant" text of a page without an entry.
    pub maybe: String,
}

/// A definition record as plain text.
pub struct WordResultText {
    pub word_head: Seq<char>,
    pub phone_con: Seq<char>,
    pub simple_dict: Seq<char>,
    pub catalogue_sentence: Seq<char>,
    pub not_found: bool,
    pub maybe: Seq<char>,
}

impl View for WordResult {
    type V = WordResultText;

    open spec fn view(&self) -> WordResultText {
        WordResultText {
            word_head: self.word_head@,
            phone_con: self.phone_con@,
            simple_dict: self.simple_dict@,
            catalogue_sentence: self.catalogue_sentence@,
            not_found: self.not_found,
            maybe: self.maybe@,
        }
    }
}

/// The text of a section, empty where the section is absent.
pub open spec fn or_empty(section: Option<Seq<char>>) -> Seq<char> {
    match section {
        Some(text) => text,
        None => Seq::empty(),
    }
}

/// The heading of a found word: the title behind a heading mark.
pub open spec fn heading(title: Seq<char>) -> Seq<char> {
    "# "@ + title
}

/// The heading made from the queried word where the page has no entry.
pub open spec fn missing_heading(word: Seq<char>) -> Seq<char> {
    "# "@ + word + ":"@
}

/// One bulleted line: the text nodes of an entry, a space between each two.
pub open spec fn bullet(texts: Seq<Seq<char>>) -> Seq<char> {
    "- "@ + joined(texts, " "@)
}

/// One bulleted line for each entry, a newline between each two.
pub open spec fn bullet_block(entries: Seq<Seq<Seq<char>>>) -> Seq<char> {
    joined(entries.map_values(|texts: Seq<Seq<char>>| bullet(texts)), "\n"@)
}

/// The text nodes of a region flattened, a newline between each two.
pub open spec fn flattened(texts: Seq<Seq<char>>) -> Seq<char> {
    joined(texts, "\n"@)
}

/// The first text of a title, empty where it has none.
pub open spec fn title_text(texts: Seq<Seq<char>>) -> Seq<char> {
    if texts.len() > 0 {
        texts[0]
    } else {
        Seq::empty()
    }
}

/// The record of a found word: the heading from the page, each section as
/// extracted or empty, no suggestions.
pub open spec fn found_record(
    head: Seq<char>,
    phone_con: Option<Seq<char>>,
    simple_dict: Option<Seq<char>>,
    catalogue_sentence: Option<Seq<char>>,
) -> WordResultText {
    WordResultText {
        word_head: head,
        phone_con: or_empty(phone_con),
        simple_dict: or_empty(simple_dict),
        catalogue_sentence: or_empty(catalogue_sentence),
        not_found: false,
        maybe: Seq::empty(),
    }
}

/// The record of a word without an entry: the heading made from the queried
/// word, the suggestions as extracted or empty, every section empty.
pub open spec fn missing_record(word: Seq<char>, maybe: Option<Seq<char>>) -> WordResultText {
    WordResultText {
        word_head: missing_heading(word),
        phone_con: Seq::empty(),
        simple_dict: Seq::empty(),
        catalogue_sentence: Seq::empty(),
        not_found: true,
        maybe: or_empty(maybe),
    }
}

/// The text shown for a record: heading, pronunciations, short definitions
/// and sentences in this order, or heading and suggestions, with a blank
/// line between each two.
pub open spec fn display(record: WordResultText) -> Seq<char> {
    if record.not_found {
        record.word_head + ":\n\n"@ + record.maybe + "\n"@
    } else {
        record.word_head + ":\n\n"@ + record.phone_con + "\n\n"@ + record.simple_dict + "\n\n"@
            + record.catalogue_sentence + "\n"@
    }
}

/// The elements of a page that match a region's path, in the order in which
/// the page yields them.
pub open spec fn region_matches(dom: scraper::Html, region: Region) -> Seq<
    scraper::ElementRef<'static>,
> {
    document_matches(dom, region.selector())
}

/// The descendants of an element that match a region's path.
pub open spec fn nested_matches(element: scraper::ElementRef<'static>, region: Region) -> Seq<
    scraper::ElementRef<'static>,
> {
    element_matches(element, region.selector())
}

/// The text nodes of the first element of a list, if any.
pub open spec fn first_texts(found: Seq<scraper::ElementRef<'static>>) -> Option<Seq<Seq<char>>> {
    if found.len() > 0 {
        Some(element_texts(found[0]))
    } else {
        None
    }
}

/// The inner markup of the first element of a list, if any.
pub open spec fn first_markup(found: Seq<scraper::ElementRef<'static>>) -> Option<Seq<char>> {
    if found.len() > 0 {
        Some(element_markup(found[0]))
    } else {
        None
    }
}

/// The text nodes of each element of a list.
pub open spec fn all_texts(found: Seq<scraper::ElementRef<'static>>) -> Seq<Seq<Seq<char>>> {
    found.map_values(|element: scraper::ElementRef<'static>| element_texts(element))
}

/// The headword section of a page: the heading from the first title, absent
/// where the page has no title.
pub open spec fn word_head_section(dom: scraper::Html) -> Option<Seq<char>> {
    match first_texts(region_matches(dom, Region::WordHead)) {
        Some(texts) => Some(heading(title_text(texts))),
        None => None,
    }
}

/// The suggestions of a page: the flattened text of the first "maybe you
/// meant" block, absent where the page has none.
pub open spec fn maybe_section(dom: scraper::Html) -> Option<Seq<char>> {
    match first_texts(region_matches(dom, Region::Maybe)) {
        Some(texts) => Some(flattened(texts)),
        None => None,
    }
}

/// The pronunciation section of a page: one bulleted line for each phonetic
/// entry. It is present on every page, and empty where there is no entry.
pub open spec fn phone_con_section(dom: scraper::Html) -> Option<Seq<char>> {
    Some(bullet_block(all_texts(region_matches(dom, Region::PerPhone))))
}

/// The entries of a simple-dictionary module: its senses, then its
/// less-common forms where it has them.
pub open spec fn simple_dict_entries(module: scraper::ElementRef<'static>) -> Seq<Seq<Seq<char>>> {
    let senses = all_texts(nested_matches(module, Region::WordExp));
    match first_texts(nested_matches(module, Region::WordWfsLess)) {
        Some(forms) => senses.push(forms),
        None => senses,
    }
}

/// The short-definition section of a page: one bulleted line for each entry
/// of the first simple-dictionary module, absent where the page has none.
pub open spec fn simple_dict_section(dom: scraper::Html) -> Option<Seq<char>> {
    let modules = region_matches(dom, Region::SimpleDict);
    if modules.len() > 0 {
        Some(bullet_block(simple_dict_entries(modules[0])))
    } else {
        None
    }
}

/// What a list item of the sentence catalogue holds.
pub open spec fn sentence_parts(item: scraper::ElementRef<'static>) -> SentenceText {
    SentenceText {
        english: first_markup(nested_matches(item, Region::SenEng)),
        translation: first_markup(nested_matches(item, Region::SenCh)),
        attribution: first_markup(nested_matches(item, Region::Secondary)),
    }
}

/// What the list items of the sentence catalogue hold, in the order in which
/// the page yields them.
pub open spec fn sentence_items(dom: scraper::Html) -> Seq<SentenceText> {
    region_matches(dom, Region::Sentence).map_values(
        |item: scraper::ElementRef<'static>| sentence_parts(item),
    )
}

/// The sentence section of a page. It is present on every page, and empty
/// where no list item is complete.
pub open spec fn catalogue_sentence_section(dom: scraper::Html) -> Option<Seq<char>> {
    Some(sentence_block(sentence_items(dom)))
}

/// The record of a lookup: that of a found word where the page has a
/// headword, that of a missing word where it has none.
pub open spec fn word_result(word: Seq<char>, dom: scraper::Html) -> WordResultText {
    match word_head_section(dom) {
        Some(head) => found_record(
            head,
            phone_con_section(dom),
            simple_dict_section(dom),
            catalogue_sentence_section(dom),
        ),
        None => missing_record(word, maybe_section(dom)),
    }
}

/// What a lookup in a page's source text gives: the record of the parsed
/// page where every fixed query compiles, and otherwise the first region, in
/// compile order, whose path is refused.
pub open spec fn lookup_outcome(
    word: Seq<char>,
    body: Seq<char>,
    outcome: Result<WordResult, QueryError>,
) -> bool {
    &&& outcome is Ok <==> all_compile()
    &&& outcome matches Ok(record) ==> record@ == word_result(word, parsed_document(body))
    &&& outcome matches Err(error) ==> first_refused(error)
}

/// A page without a headword region gives the record of a missing word,
/// whatever its other regions hold: the heading is made from the queried
/// word, the suggestions are those of the page, and every section is empty.
pub proof fn lemma_missing_headword(word: Seq<char>, dom: scraper::Html)
    requires
        region_matches(dom, Region::WordHead).len() == 0,
    ensures
        word_result(word, dom).not_found,
        word_result(word, dom).word_head == missing_heading(word),
        word_result(word, dom).maybe == or_empty(maybe_section(dom)),
        word_result(word, dom).phone_con.len() == 0,
        word_result(word, dom).simple_dict.len() == 0,
        word_result(word, dom).catalogue_sentence.len() == 0,
{
}

/// A page with a headword region gives the record of a found word: the
/// heading comes from the first title, and each section is what its own
/// extractor gives for the page, or empty, whatever the other sections are.
pub proof fn lemma_present_headword(word: Seq<char>, dom: scraper::Html)
    requires
        region_matches(dom, Region::WordHead).len() > 0,
    ensures
        !word_result(word, dom).not_found,
        word_result(word, dom).word_head == heading(
            title_text(element_texts(region_matches(dom, Region::WordHead)[0])),
        ),
        word_result(word, dom).phone_con == or_empty(phone_con_section(dom)),
        word_result(word, dom).simple_dict == or_empty(simple_dict_section(dom)),
        word_result(word, dom).catalogue_sentence == or_empty(catalogue_sentence_section(dom)),
        word_result(word, dom).maybe.len() == 0,
{
}

/// The heading of a record is never empty, and the record is that of a
/// missing word exactly where the page has no headword region.
pub proof fn lemma_heading_never_empty(word: Seq<char>, dom: scraper::Html)
    ensures
        word_result(word, dom).word_head.len() >= 2,
        word_result(word, dom).not_found <==> region_matches(dom, Region::WordHead).len() == 0,
{
    reveal_strlit("# ");
}

/// Two lookups of one word in one source text give the same outcome: equal
/// records, or the same error.
pub proof fn lemma_lookup_repeatable(
    word: Seq<char>,
    body: Seq<char>,
    first: Result<WordResult, QueryError>,
    second: Result<WordResult, QueryError>,
)
    requires
        lookup_outcome(word, body, first),
        lookup_outcome(word, body, second),
    ensures
        first is Ok <==> second is Ok,
        first is Ok ==> first->Ok_0@ == second->Ok_0@,
        first is Err ==> first->Err_0 == second->Err_0,
{
    if first is Err {
        let a = first->Err_0.region;
        let b = second->Err_0.region;
        if a.ordinal() < b.ordinal() {
            assert(a.compiles());
        }
        if b.ordinal() < a.ordinal() {
            assert(b.compiles());
        }
        assert(a == b);
    }
}

/// The elements of a page that match a region's path.
fn select_region<'a>(dom: &'a scraper::Html, queries: &Queries, region: Region) -> (found: Vec<
    scraper::ElementRef<'a>,
>)
    ensures
        found@ == region_matches(*dom, region),
{
    select_in_document(dom, queries.selector(region))
}

/// The descendants of an element that match a region's path.
fn select_nested<'a>(element: &scraper::ElementRef<'a>, queries: &Queries, region: Region) -> (found:
    Vec<scraper::ElementRef<'a>>)
    ensures
        found@ == nested_matches(*element, region),
{
    select_in_element(element, queries.selector(region))
}

/// The text nodes of the first element of a list, if any.
fn read_first_texts(found: &Vec<scraper::ElementRef<'_>>) -> (r: Option<Vec<String>>)
    ensures
        match r {
            Some(texts) => first_texts(found@) == Some(texts.deep_view()),
            None => first_texts(found@) is None,
        },
{
    if found.len() > 0 {
        Some(text_nodes(&found[0]))
    } else {
        None
    }
}

/// The inner markup of the first element of a list, if any.
fn read_first_markup(found: &Vec<scraper::ElementRef<'_>>) -> (r: Option<String>)
    ensures
        text_of(r) == first_markup(found@),
{
    if found.len() > 0 {
        Some(inner_markup(&found[0]))
    } else {
        None
    }
}

/// The text nodes of each element of a list.
fn read_all_texts(found: &Vec<scraper::ElementRef<'_>>) -> (r: Vec<Vec<String>>)
    ensures
        r.deep_view() == all_texts(found@),
{
    let mut entries: Vec<Vec<String>> = Vec::new();
    let mut i: usize = 0;
    while i < found.len()
        invariant
            i <= found.len(),
            entries.len() == i,
            forall|j: int| 0 <= j < i ==> entries[j].deep_view() == element_texts(found@[j]),
        decreases found.len() - i,
    {
        entries.push(text_nodes(&found[i]));
        i += 1;
    }
    assert(entries.deep_view() =~= all_texts(found@));
    entries
}

/// The heading of a found word.
pub fn format_heading(title: &str) -> (r: String)
    ensures
        r@ == heading(title@),
{
    let mut out = String::from_str("# ");
    out.append(title);
    out
}

/// The heading made from the queried word where the page has no entry.
pub fn format_missing_heading(word: &str) -> (r: String)
    ensures
        r@ == missing_heading(word@),
{
    let mut out = String::from_str("# ");
    out.append(word);
    out.append(":");
    out
}

/// One bulleted line from the text nodes of an entry.
pub fn format_bullet(texts: &Vec<String>) -> (r: String)
    ensures
        r@ == bullet(texts.deep_view()),
{
    let mut out = String::from_str("- ");
    let line = join(texts, " ");
    out.append(line.as_str());
    out
}

/// One bulleted line for each entry, a newline between each two.
pub fn format_bullets(entries: &Vec<Vec<String>>) -> (r: String)
    ensures
        r@ == bullet_block(entries.deep_view()),
{
    let mut lines: Vec<String> = Vec::new();
    let mut i: usize = 0;
    while i < entries.len()
        invariant
            i <= entries.len(),
            lines.len() == i,
            forall|j: int| 0 <= j < i ==> lines[j]@ == bullet(entries[j].deep_view()),
        decreases entries.len() - i,
    {
        lines.push(format_bullet(&entries[i]));
        i += 1;
    }
    assert(lines.deep_view() =~= entries.deep_view().map_values(
        |texts: Seq<Seq<char>>| bullet(texts),
    ));
    join(&lines, "\n")
}

/// The headword section of a page.
pub fn parse_word_head(dom: &scraper::Html, queries: &Queries) -> (r: Option<String>)
    ensures
        text_of(r) == word_head_section(*dom),
{
    let found = select_region(dom, queries, Region::WordHead);
    match read_first_texts(&found) {
        Some(texts) => {
            if texts.len() > 0 {
                Some(format_heading(texts[0].as_str()))
            } else {
                let none = String::new();
                Some(format_heading(none.as_str()))
            }
        },
        None => None,
    }
}

/// The suggestions of a page.
pub fn parse_maybe(dom: &scraper::Html, queries: &Queries) -> (r: Option<String>)
    ensures
        text_of(r) == maybe_section(*dom),
{
    let found = select_region(dom, queries, Region::Maybe);
    match read_first_texts(&found) {
        Some(texts) => Some(join(&texts, "\n")),
        None => None,
    }
}

/// The pronunciation section of a page.
pub fn parse_phone_con(dom: &scraper::Html, queries: &Queries) -> (r: Option<String>)
    ensures
        text_of(r) == phone_con_section(*dom),
{
    let found = select_region(dom, queries, Region::PerPhone);
    let entries = read_all_texts(&found);
    Some(format_bullets(&entries))
}

/// The short-definition section of a page.
pub fn parse_simple_dict(dom: &scraper::Html, queries: &Queries) -> (r: Option<String>)
    ensures
        text_of(r) == simple_dict_section(*dom),
{
    let modules = select_region(dom, queries, Region::SimpleDict);
    if modules.len() == 0 {
        return None;
    }
    let module = &modules[0];
    let senses = select_nested(module, queries, Region::WordExp);
    let mut entries = read_all_texts(&senses);
    let forms = select_nested(module, queries, Region::WordWfsLess);
    match read_first_texts(&forms) {
        Some(texts) => {
            entries.push(texts);
            assert(entries.deep_view() =~= simple_dict_entries(modules@[0]));
        },
        None => {},
    }
    Some(format_bullets(&entries))
}

/// What the list items of the sentence catalogue hold.
fn read_sentences(found: &Vec<scraper::ElementRef<'_>>, queries: &Queries) -> (r: Vec<
    SentenceParts,
>)
    ensures
        r.deep_view() == found@.map_values(
            |item: scraper::ElementRef<'static>| sentence_parts(item),
        ),
{
    let mut items: Vec<SentenceParts> = Vec::new();
    let mut i: usize = 0;
    while i < found.len()
        invariant
            i <= found.len(),
            items.len() == i,
            forall|j: int| 0 <= j < i ==> items[j]@ == sentence_parts(found@[j]),
        decreases found.len() - i,
    {
        let item = &found[i];
        let english = read_first_markup(&select_nested(item, queries, Region::SenEng));
        let translation = read_first_markup(&select_nested(item, queries, Region::SenCh));
        let attribution = read_first_markup(&select_nested(item, queries, Region::Secondary));
        items.push(SentenceParts { english, translation, attribution });
        i += 1;
    }
    assert(items.deep_view() =~= found@.map_values(
        |item: scraper::ElementRef<'static>| sentence_parts(item),
    ));
    items
}

/// The sentence section of a page.
pub fn parse_catalogue_sentence(dom: &scraper::Html, queries: &Queries) -> (r: Option<String>)
    ensures
        text_of(r) == catalogue_sentence_section(*dom),
{
    let found = select_region(dom, queries, Region::Sentence);
    let items = read_sentences(&found, queries);
    Some(format_sentences(&items))
}

/// A section's text, empty where the section is absent.
fn unwrap_or_empty(section: Option<String>) -> (r: String)
    ensures
        r@ == or_empty(text_of(section)),
{
    match section {
        Some(text) => text,
        None => String::new(),
    }
}

impl WordResult {
    /// The record of a found word.
    pub fn found(
        head: String,
        phone_con: Option<String>,
        simple_dict: Option<String>,
        catalogue_sentence: Option<String>,
    ) -> (r: WordResult)
        ensures
            r@ == found_record(
                head@,
                text_of(phone_con),
                text_of(simple_dict),
                text_of(catalogue_sentence),
            ),
    {
        WordResult {
            word_head: head,
            phone_con: unwrap_or_empty(phone_con),
            simple_dict: unwrap_or_empty(simple_dict),
            catalogue_sentence: unwrap_or_empty(catalogue_sentence),
            not_found: false,
            maybe: String::new(),
        }
    }

    /// The record of a word without an entry.
    pub fn missing(word: &str, maybe: Option<String>) -> (r: WordResult)
        ensures
            r@ == missing_record(word@, text_of(maybe)),
    {
        WordResult {
            word_head: format_missing_heading(word),
            phone_con: String::new(),
            simple_dict: String::new(),
            catalogue_sentence: String::new(),
            not_found: true,
            maybe: unwrap_or_empty(maybe),
        }
    }

    /// The text shown for the record.
    pub fn display_text(&self) -> (r: String)
        ensures
            r@ == display(self@),
    {
        let mut out = self.word_head.clone();
        out.append(":\n\n");
        if self.not_found {
            out.append(self.maybe.as_str());
        } else {
            out.append(self.phone_con.as_str());
            out.append("\n\n");
            out.append(self.simple_dict.as_str());
            out.append("\n\n");
            out.append(self.catalogue_sentence.as_str());
        }
        out.append("\n");
        out
    }
}

/// Assembles the record of a lookup from a parsed page. The other sections
/// are read only where the page has a headword, the suggestions only where
/// it has none.
pub fn extract(word: &str, dom: &scraper::Html, queries: &Queries) -> (r: WordResult)
    ensures
        r@ == word_result(word@, *dom),
{
    match parse_word_head(dom, queries) {
        Some(head) => WordResult::found(
            head,
            parse_phone_con(dom, queries),
            parse_simple_dict(dom, queries),
            parse_catalogue_sentence(dom, queries),
        ),
        None => WordResult::missing(word, parse_maybe(dom, queries)),
    }
}

/// Looks a word up in the source text of its result page. Fails only where
/// one of the fixed queries is refused, whatever the page.
pub fn parse_word_result_body(word: &str, body: &str) -> (r: Result<WordResult, QueryError>)
    ensures
        lookup_outcome(word@, body@, r),
{
    let queries = Queries::compile()?;
    let dom = parse_document(body);
    Ok(extract(word, &dom, &queries))
}

} // verus!
