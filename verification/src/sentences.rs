//! The example-sentence list: incomplete items are dropped, the kept ones are
//! numbered from one and rendered as three aligned lines each.

use vstd::prelude::*;
use vstd::string::*;
use crate::text::{
    blanks, decimal, decimal_string, join, joined, lemma_replacing_adds_none,
    lemma_replacing_removes_all, lemma_replacing_without_pattern, occurs_in, replace, replaced,
    spaces,
};

verus! {

/// What one list item of the sentence catalogue holds: the inner markup of
/// its English sentence, of its translation and of its attribution, each
/// absent where the item has no such sub-element.
#[derive(Clone, Debug, PartialEq, Eq)]
pub struct SentenceParts {
    pub english: Option<String>,
    pub translation: Option<String>,
    pub attribution: Option<String>,
}

/// A list item as plain text.
pub struct SentenceText {
    pub english: Option<Seq<char>>,
    pub translation: Option<Seq<char>>,
    pub attribution: Option<Seq<char>>,
}

/// The text of an optional string.
pub open spec fn text_of(s: Option<String>) -> Option<Seq<char>> {
    match s {
        Some(s) => Some(s@),
        None => None,
    }
}

impl View for SentenceParts {
    type V = SentenceText;

    open spec fn view(&self) -> SentenceText {
        SentenceText {
            english: text_of(self.english),
            translation: text_of(self.translation),
            attribution: text_of(self.attribution),
        }
    }
}

impl DeepView for SentenceParts {
    type V = SentenceText;

    open spec fn deep_view(&self) -> SentenceText {
        self.view()
    }
}

impl SentenceText {
    /// Whether all three sub-elements are present.
    pub open spec fn is_complete(self) -> bool {
        self.english is Some && self.translation is Some && self.attribution is Some
    }
}

/// The items that have all three sub-elements, in their order.
pub open spec fn kept(items: Seq<SentenceText>) -> Seq<SentenceText> {
    items.filter(|item: SentenceText| item.is_complete())
}

/// Markup with bold tags turned into double-asterisk emphasis.
pub open spec fn emphasized(markup: Seq<char>) -> Seq<char> {
    replaced(replaced(markup, "<b>"@, "**"@), "</b>"@, "**"@)
}

/// The index prefix of an entry: the numeral, a full stop and a space.
pub open spec fn index_prefix(index: nat) -> Seq<char> {
    decimal(index) + ". "@
}

/// One entry: the numbered English sentence with its bold markup turned into
/// emphasis, then the translation and the attribution as they are, each on a
/// line of its own that is indented by the width of the index prefix. The
/// first two lines end in a backslash.
pub open spec fn entry(index: nat, english: Seq<char>, translation: Seq<char>, attribution: Seq<char>)
    -> Seq<char> {
    let prefix = index_prefix(index);
    let indent = blanks(prefix.len());
    prefix + emphasized(english) + "\\\n"@ + indent + translation + "\\\n"@ + indent + attribution
}

/// The entries of a list of complete items, numbered from one.
pub open spec fn entries(complete: Seq<SentenceText>) -> Seq<Seq<char>> {
    Seq::new(
        complete.len(),
        |i: int|
            entry(
                (i + 1) as nat,
                complete[i].english->Some_0,
                complete[i].translation->Some_0,
                complete[i].attribution->Some_0,
            ),
    )
}

/// The sentence block of a list of items: the entries of the kept items, one
/// newline between each two.
pub open spec fn sentence_block(items: Seq<SentenceText>) -> Seq<char> {
    joined(entries(kept(items)), "\n"@)
}

/// Keeping distributes over appending one item.
pub proof fn lemma_kept_push(items: Seq<SentenceText>, item: SentenceText)
    ensures
        kept(items.push(item)) == if item.is_complete() {
            kept(items).push(item)
        } else {
            kept(items)
        },
{
    reveal(Seq::filter);
    assert(items.push(item).drop_last() =~= items);
}

/// Exactly the complete items are kept: every kept item is complete, and
/// every complete item is among the kept ones.
pub proof fn lemma_kept_complete(items: Seq<SentenceText>)
    ensures
        kept(items).len() <= items.len(),
        forall|i: int| 0 <= i < kept(items).len() ==> (#[trigger] kept(items)[i]).is_complete(),
        forall|j: int|
            0 <= j < items.len() && (#[trigger] items[j]).is_complete() ==> kept(items).contains(
                items[j],
            ),
    decreases items.len(),
{
    reveal(Seq::filter);
    if items.len() > 0 {
        let front = items.drop_last();
        lemma_kept_complete(front);
        assert forall|j: int| 0 <= j < items.len() && (#[trigger] items[j]).is_complete() implies kept(
            items,
        ).contains(items[j]) by {
            if j < front.len() {
                assert(front[j] == items[j]);
                let at = choose|at: int| 0 <= at < kept(front).len() && kept(front)[at] == front[j];
                assert(kept(items)[at] == items[j]);
            } else {
                assert(kept(items)[kept(items).len() - 1] == items[j]);
            }
        }
    }
}

/// The sentence block has one entry for each kept item and for no other, and
/// the entries are numbered one, two, three and so on, in their order.
pub proof fn lemma_entries_numbered(items: Seq<SentenceText>)
    ensures
        entries(kept(items)).len() == kept(items).len(),
        kept(items).len() <= items.len(),
        forall|i: int| 0 <= i < kept(items).len() ==> (#[trigger] kept(items)[i]).is_complete(),
        forall|i: int|
            0 <= i < kept(items).len() ==> index_prefix((i + 1) as nat).is_prefix_of(
                #[trigger] entries(kept(items))[i],
            ),
{
    lemma_kept_complete(items);
    assert forall|i: int| 0 <= i < kept(items).len() implies index_prefix(
        (i + 1) as nat,
    ).is_prefix_of(#[trigger] entries(kept(items))[i]) by {
        let line = entries(kept(items))[i];
        let prefix = index_prefix((i + 1) as nat);
        assert(prefix =~= line.subrange(0, prefix.len() as int));
    }
}

/// The layout of an entry: it begins with its index prefix, and it ends with
/// the translation and the attribution exactly as they were given, each
/// behind an indentation as wide as the index prefix.
pub proof fn lemma_entry_layout(
    index: nat,
    english: Seq<char>,
    translation: Seq<char>,
    attribution: Seq<char>,
)
    ensures
        index_prefix(index).is_prefix_of(entry(index, english, translation, attribution)),
        (blanks(index_prefix(index).len()) + translation + "\\\n"@ + blanks(
            index_prefix(index).len(),
        ) + attribution).is_suffix_of(entry(index, english, translation, attribution)),
{
    let line = entry(index, english, translation, attribution);
    let prefix = index_prefix(index);
    let tail = blanks(prefix.len()) + translation + "\\\n"@ + blanks(prefix.len()) + attribution;
    assert(prefix =~= line.subrange(0, prefix.len() as int));
    assert(tail =~= line.subrange(line.len() - tail.len(), line.len() as int));
}

/// No bold tag is left in emphasized markup.
pub proof fn lemma_emphasized_has_no_bold_tag(markup: Seq<char>)
    ensures
        !occurs_in("<b>"@, emphasized(markup)),
        !occurs_in("</b>"@, emphasized(markup)),
{
    reveal_strlit("<b>");
    reveal_strlit("</b>");
    reveal_strlit("**");
    let opened = replaced(markup, "<b>"@, "**"@);
    lemma_replacing_removes_all(markup, "<b>"@, "**"@);
    lemma_replacing_removes_all(opened, "</b>"@, "**"@);
    if occurs_in("<b>"@, emphasized(markup)) {
        lemma_replacing_adds_none("<b>"@, opened, "</b>"@, "**"@);
    }
}

/// Markup without bold tags is left as it is.
pub proof fn lemma_emphasized_without_bold_tag(markup: Seq<char>)
    requires
        !occurs_in("<b>"@, markup),
        !occurs_in("</b>"@, markup),
    ensures
        emphasized(markup) == markup,
{
    lemma_replacing_without_pattern(markup, "<b>"@, "**"@);
    lemma_replacing_without_pattern(markup, "</b>"@, "**"@);
}

/// Turns bold tags into double-asterisk emphasis.
pub fn emphasize(markup: &str) -> (r: String)
    ensures
        r@ == emphasized(markup@),
{
    let opened = replace(markup, "<b>", "**");
    replace(opened.as_str(), "</b>", "**")
}

/// Renders one entry with the given index.
pub fn format_entry(index: usize, english: &str, translation: &str, attribution: &str) -> (r:
    String)
    ensures
        r@ == entry(index as nat, english@, translation@, attribution@),
{
    let mut out = decimal_string(index);
    out.append(". ");
    let width: usize = out.as_str().unicode_len();
    let indent = spaces(width);
    let bold = emphasize(english);
    out.append(bold.as_str());
    out.append("\\\n");
    out.append(indent.as_str());
    out.append(translation);
    out.append("\\\n");
    out.append(indent.as_str());
    out.append(attribution);
    assert(out@ =~= entry(index as nat, english@, translation@, attribution@));
    out
}

/// Renders the sentence block of a list of items.
pub fn format_sentences(items: &Vec<SentenceParts>) -> (r: String)
    ensures
        r@ == sentence_block(items.deep_view()),
{
    let mut lines: Vec<String> = Vec::new();
    let mut i: usize = 0;
    proof {
        reveal(Seq::filter);
        assert(items.deep_view().take(0) =~= Seq::<SentenceText>::empty());
        assert(lines.deep_view() =~= entries(kept(items.deep_view().take(0))));
    }
    while i < items.len()
        invariant
            i <= items.len(),
            lines.len() <= i,
            lines.deep_view() == entries(kept(items.deep_view().take(i as int))),
        decreases items.len() - i,
    {
        let item = &items[i];
        let ghost before = items.deep_view().take(i as int);
        let ghost old_lines = lines.deep_view();
        proof {
            lemma_kept_push(before, item@);
            assert(items.deep_view().take(i + 1) =~= before.push(item@));
        }
        match (&item.english, &item.translation, &item.attribution) {
            (Some(english), Some(translation), Some(attribution)) => {
                let index: usize = lines.len() + 1;
                let line = format_entry(
                    index,
                    english.as_str(),
                    translation.as_str(),
                    attribution.as_str(),
                );
                lines.push(line);
                proof {
                    let complete = kept(before).push(item@);
                    assert(old_lines.len() == kept(before).len());
                    assert forall|j: int| 0 <= j < lines.len() implies lines.deep_view()[j]
                        == entries(complete)[j] by {
                        if j < old_lines.len() {
                            assert(lines.deep_view()[j] == old_lines[j]);
                            assert(complete[j] == kept(before)[j]);
                        } else {
                            assert(lines.deep_view()[j] == line@);
                            assert(complete[j] == item@);
                        }
                    }
                    assert(lines.deep_view() =~= entries(complete));
                }
            },
            _ => {},
        }
        i += 1;
    }
    assert(items.deep_view().take(i as int) =~= items.deep_view());
    join(&lines, "\n")
}

} // verus!
