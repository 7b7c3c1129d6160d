//! The fixed structural queries: each region of the result page has a name
//! and a CSS path, and the paths are compiled together, once per lookup.

use vstd::prelude::*;
use vstd::string::*;
use crate::dom::{parse_selector, parsed_selector};

verus! {

/// A named region of the result page.
#[derive(Clone, Copy, Debug, PartialEq, Eq, Structural)]
pub enum Region {
    /// The title inside the word-head block.
    WordHead,
    /// The "maybe you meant" block.
    Maybe,
    /// One phonetic entry inside the phonetic container.
    PerPhone,
    /// The simple-dictionary module.
    SimpleDict,
    /// One sense entry, looked up inside the simple-dictionary module.
    WordExp,
    /// The less-common-forms entry, looked up inside the same module.
    WordWfsLess,
    /// One list item of the sentence catalogue.
    Sentence,
    /// The English sentence, looked up inside a list item.
    SenEng,
    /// The translation, looked up inside a list item.
    SenCh,
    /// The attribution, looked up inside a list item.
    Secondary,
}

impl Region {
    /// The CSS path of the region.
    pub open spec fn path(self) -> Seq<char> {
        match self {
            Region::WordHead => ".word-head .title"@,
            Region::Maybe => ".maybe"@,
            Region::PerPhone => ".phone_con .per-phone"@,
            Region::SimpleDict => ".simple.dict-module"@,
            Region::WordExp => ".word-exp"@,
            Region::WordWfsLess => ".word-wfs-less"@,
            Region::Sentence => "#catalogue_sentence .dict-book ul > li"@,
            Region::SenEng => ".sen-eng"@,
            Region::SenCh => ".sen-ch"@,
            Region::Secondary => ".secondary"@,
        }
    }

    /// The place of the region in the order in which the paths are compiled.
    pub open spec fn ordinal(self) -> nat {
        match self {
            Region::WordHead => 0,
            Region::Maybe => 1,
            Region::PerPhone => 2,
            Region::SimpleDict => 3,
            Region::WordExp => 4,
            Region::WordWfsLess => 5,
            Region::Sentence => 6,
            Region::SenEng => 7,
            Region::SenCh => 8,
            Region::Secondary => 9,
        }
    }

    /// Whether the region's path is accepted as a selector.
    pub open spec fn compiles(self) -> bool {
        parsed_selector(self.path()) is Some
    }

    /// The compiled selector of the region, where its path is accepted.
    pub open spec fn selector(self) -> scraper::Selector {
        parsed_selector(self.path())->Some_0
    }

    /// The CSS path of the region.
    pub fn css(self) -> (s: &'static str)
        ensures
            s@ == self.path(),
    {
        match self {
            Region::WordHead => ".word-head .title",
            Region::Maybe => ".maybe",
            Region::PerPhone => ".phone_con .per-phone",
            Region::SimpleDict => ".simple.dict-module",
            Region::WordExp => ".word-exp",
            Region::WordWfsLess => ".word-wfs-less",
            Region::Sentence => "#catalogue_sentence .dict-book ul > li",
            Region::SenEng => ".sen-eng",
            Region::SenCh => ".sen-ch",
            Region::Secondary => ".secondary",
        }
    }
}

/// Whether every region's path is accepted as a selector.
pub open spec fn all_compile() -> bool {
    forall|region: Region| region.compiles()
}

/// A region whose path was refused: the query set is unusable.
#[derive(Clone, Copy, Debug, PartialEq, Eq, Structural)]
pub struct QueryError {
    /// The first region, in compile order, whose path was refused.
    pub region: Region,
}

impl QueryError {
    /// What the error says: that the path of its region was refused.
    pub open spec fn text(self) -> Seq<char> {
        "refused as a selector: "@ + self.region.path()
    }

    /// What the error says.
    pub fn message(&self) -> (r: String)
        ensures
            r@ == self.text(),
    {
        let mut out = String::from_str("refused as a selector: ");
        out.append(self.region.css());
        out
    }
}

/// Whether an error names the first region that does not compile.
pub open spec fn first_refused(error: QueryError) -> bool {
    &&& !error.region.compiles()
    &&& forall|earlier: Region| earlier.ordinal() < error.region.ordinal() ==> earlier.compiles()
}

/// The compiled selectors of all regions.
pub struct Queries {
    word_head: scraper::Selector,
    maybe: scraper::Selector,
    per_phone: scraper::Selector,
    simple_dict: scraper::Selector,
    word_exp: scraper::Selector,
    word_wfs_less: scraper::Selector,
    sentence: scraper::Selector,
    sen_eng: scraper::Selector,
    sen_ch: scraper::Selector,
    secondary: scraper::Selector,
}

impl Queries {
    /// The selector held for a region.
    pub closed spec fn held(self, region: Region) -> scraper::Selector {
        match region {
            Region::WordHead => self.word_head,
            Region::Maybe => self.maybe,
            Region::PerPhone => self.per_phone,
            Region::SimpleDict => self.simple_dict,
            Region::WordExp => self.word_exp,
            Region::WordWfsLess => self.word_wfs_less,
            Region::Sentence => self.sentence,
            Region::SenEng => self.sen_eng,
            Region::SenCh => self.sen_ch,
            Region::Secondary => self.secondary,
        }
    }

    /// Every selector held is the one compiled from its region's path.
    #[verifier::type_invariant]
    spec fn well_formed(self) -> bool {
        forall|region: Region|
            region.compiles() && (#[trigger] self.held(region)) == region.selector()
    }

    /// Compiles the paths of all regions, in order. Fails at the first path
    /// that is refused.
    pub fn compile() -> (r: Result<Queries, QueryError>)
        ensures
            r is Ok <==> all_compile(),
            r matches Err(error) ==> first_refused(error),
    {
        let word_head = compile_region(Region::WordHead)?;
        let maybe = compile_region(Region::Maybe)?;
        let per_phone = compile_region(Region::PerPhone)?;
        let simple_dict = compile_region(Region::SimpleDict)?;
        let word_exp = compile_region(Region::WordExp)?;
        let word_wfs_less = compile_region(Region::WordWfsLess)?;
        let sentence = compile_region(Region::Sentence)?;
        let sen_eng = compile_region(Region::SenEng)?;
        let sen_ch = compile_region(Region::SenCh)?;
        let secondary = compile_region(Region::Secondary)?;
        Ok(
            Queries {
                word_head,
                maybe,
                per_phone,
                simple_dict,
                word_exp,
                word_wfs_less,
                sentence,
                sen_eng,
                sen_ch,
                secondary,
            },
        )
    }

    /// The compiled selector of a region.
    pub fn selector(&self, region: Region) -> (s: &scraper::Selector)
        ensures
            region.compiles(),
            *s == region.selector(),
    {
        proof {
            use_type_invariant(self);
            assert(self.held(region) == region.selector());
        }
        match region {
            Region::WordHead => &self.word_head,
            Region::Maybe => &self.maybe,
            Region::PerPhone => &self.per_phone,
            Region::SimpleDict => &self.simple_dict,
            Region::WordExp => &self.word_exp,
            Region::WordWfsLess => &self.word_wfs_less,
            Region::Sentence => &self.sentence,
            Region::SenEng => &self.sen_eng,
            Region::SenCh => &self.sen_ch,
            Region::Secondary => &self.secondary,
        }
    }
}

/// Compiles the path of one region.
fn compile_region(region: Region) -> (r: Result<scraper::Selector, QueryError>)
    ensures
        match r {
            Ok(selector) => parsed_selector(region.path()) == Some(selector),
            Err(error) => error.region == region && !region.compiles(),
        },
{
    match parse_selector(region.css()) {
        Ok(selector) => Ok(selector),
        Err(_) => Err(QueryError { region }),
    }
}

} // verus!
