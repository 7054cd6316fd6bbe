//! Data model: the twelve-grade fortune classification, the life-domain
//! section categories, the in-progress draft, and the durable slip record.

use vstd::prelude::*;

use crate::text::str_eq;

verus! {

/// The twelve ordered blessing/curse grades of a fortune slip, plus the
/// `Unknown` sentinel that only ever appears while a draft is unfinished and
/// is never accepted as a chosen class.
#[derive(Clone, Copy, Debug, PartialEq, Eq, Structural)]
pub enum OmikujiClass {
    GreatBlessing,
    MiddleBlessing,
    SmallBlessing,
    Blessing,
    HalfBlessing,
    FutureBlessing,
    FutureSmallBlessing,
    Curse,
    SmallCurse,
    HalfCurse,
    FutureCurse,
    GreatCurse,
    Unknown,
}

/// Number of `OmikujiClass` variants, the `Unknown` sentinel included.
pub open spec fn class_count() -> int {
    13
}

/// Position of a class in the fixed order of variants.
pub open spec fn class_index_spec(c: OmikujiClass) -> int {
    match c {
        OmikujiClass::GreatBlessing => 0,
        OmikujiClass::MiddleBlessing => 1,
        OmikujiClass::SmallBlessing => 2,
        OmikujiClass::Blessing => 3,
        OmikujiClass::HalfBlessing => 4,
        OmikujiClass::FutureBlessing => 5,
        OmikujiClass::FutureSmallBlessing => 6,
        OmikujiClass::Curse => 7,
        OmikujiClass::SmallCurse => 8,
        OmikujiClass::HalfCurse => 9,
        OmikujiClass::FutureCurse => 10,
        OmikujiClass::GreatCurse => 11,
        OmikujiClass::Unknown => 12,
    }
}

/// The class at a given position, inverse of `class_index_spec`.
pub open spec fn class_from_index_spec(i: int) -> Option<OmikujiClass> {
    if i == 0 {
        Some(OmikujiClass::GreatBlessing)
    } else if i == 1 {
        Some(OmikujiClass::MiddleBlessing)
    } else if i == 2 {
        Some(OmikujiClass::SmallBlessing)
    } else if i == 3 {
        Some(OmikujiClass::Blessing)
    } else if i == 4 {
        Some(OmikujiClass::HalfBlessing)
    } else if i == 5 {
        Some(OmikujiClass::FutureBlessing)
    } else if i == 6 {
        Some(OmikujiClass::FutureSmallBlessing)
    } else if i == 7 {
        Some(OmikujiClass::Curse)
    } else if i == 8 {
        Some(OmikujiClass::SmallCurse)
    } else if i == 9 {
        Some(OmikujiClass::HalfCurse)
    } else if i == 10 {
        Some(OmikujiClass::FutureCurse)
    } else if i == 11 {
        Some(OmikujiClass::GreatCurse)
    } else if i == 12 {
        Some(OmikujiClass::Unknown)
    } else {
        None
    }
}

/// The wire token of a class: the variant's name.
pub open spec fn class_token_spec(c: OmikujiClass) -> Seq<char> {
    match c {
        OmikujiClass::GreatBlessing => "GreatBlessing"@,
        OmikujiClass::MiddleBlessing => "MiddleBlessing"@,
        OmikujiClass::SmallBlessing => "SmallBlessing"@,
        OmikujiClass::Blessing => "Blessing"@,
        OmikujiClass::HalfBlessing => "HalfBlessing"@,
        OmikujiClass::FutureBlessing => "FutureBlessing"@,
        OmikujiClass::FutureSmallBlessing => "FutureSmallBlessing"@,
        OmikujiClass::Curse => "Curse"@,
        OmikujiClass::SmallCurse => "SmallCurse"@,
        OmikujiClass::HalfCurse => "HalfCurse"@,
        OmikujiClass::FutureCurse => "FutureCurse"@,
        OmikujiClass::GreatCurse => "GreatCurse"@,
        OmikujiClass::Unknown => "Unknown"@,
    }
}

/// Total parse of a wire token into a class; `None` on any unknown token.
pub open spec fn class_from_token_spec(s: Seq<char>) -> Option<OmikujiClass> {
    if s == "GreatBlessing"@ {
        Some(OmikujiClass::GreatBlessing)
    } else if s == "MiddleBlessing"@ {
        Some(OmikujiClass::MiddleBlessing)
    } else if s == "SmallBlessing"@ {
        Some(OmikujiClass::SmallBlessing)
    } else if s == "Blessing"@ {
        Some(OmikujiClass::Blessing)
    } else if s == "HalfBlessing"@ {
        Some(OmikujiClass::HalfBlessing)
    } else if s == "FutureBlessing"@ {
        Some(OmikujiClass::FutureBlessing)
    } else if s == "FutureSmallBlessing"@ {
        Some(OmikujiClass::FutureSmallBlessing)
    } else if s == "Curse"@ {
        Some(OmikujiClass::Curse)
    } else if s == "SmallCurse"@ {
        Some(OmikujiClass::SmallCurse)
    } else if s == "HalfCurse"@ {
        Some(OmikujiClass::HalfCurse)
    } else if s == "FutureCurse"@ {
        Some(OmikujiClass::FutureCurse)
    } else if s == "GreatCurse"@ {
        Some(OmikujiClass::GreatCurse)
    } else if s == "Unknown"@ {
        Some(OmikujiClass::Unknown)
    } else {
        None
    }
}

impl OmikujiClass {
    /// The wire token of this class.
    pub fn token(&self) -> (r: &'static str)
        ensures
            r@ == class_token_spec(*self),
    {
        match self {
            OmikujiClass::GreatBlessing => "GreatBlessing",
            OmikujiClass::MiddleBlessing => "MiddleBlessing",
            OmikujiClass::SmallBlessing => "SmallBlessing",
            OmikujiClass::Blessing => "Blessing",
            OmikujiClass::HalfBlessing => "HalfBlessing",
            OmikujiClass::FutureBlessing => "FutureBlessing",
            OmikujiClass::FutureSmallBlessing => "FutureSmallBlessing",
            OmikujiClass::Curse => "Curse",
            OmikujiClass::SmallCurse => "SmallCurse",
            OmikujiClass::HalfCurse => "HalfCurse",
            OmikujiClass::FutureCurse => "FutureCurse",
            OmikujiClass::GreatCurse => "GreatCurse",
            OmikujiClass::Unknown => "Unknown",
        }
    }

    /// Parse a wire token; total, `None` on an unknown token.
    pub fn from_token(s: &str) -> (r: Option<OmikujiClass>)
        ensures
            r == class_from_token_spec(s@),
    {
        if str_eq(s, "GreatBlessing") {
            Some(OmikujiClass::GreatBlessing)
        } else if str_eq(s, "MiddleBlessing") {
            Some(OmikujiClass::MiddleBlessing)
        } else if str_eq(s, "SmallBlessing") {
            Some(OmikujiClass::SmallBlessing)
        } else if str_eq(s, "Blessing") {
            Some(OmikujiClass::Blessing)
        } else if str_eq(s, "HalfBlessing") {
            Some(OmikujiClass::HalfBlessing)
        } else if str_eq(s, "FutureBlessing") {
            Some(OmikujiClass::FutureBlessing)
        } else if str_eq(s, "FutureSmallBlessing") {
            Some(OmikujiClass::FutureSmallBlessing)
        } else if str_eq(s, "Curse") {
            Some(OmikujiClass::Curse)
        } else if str_eq(s, "SmallCurse") {
            Some(OmikujiClass::SmallCurse)
        } else if str_eq(s, "HalfCurse") {
            Some(OmikujiClass::HalfCurse)
        } else if str_eq(s, "FutureCurse") {
            Some(OmikujiClass::FutureCurse)
        } else if str_eq(s, "GreatCurse") {
            Some(OmikujiClass::GreatCurse)
        } else if str_eq(s, "Unknown") {
            Some(OmikujiClass::Unknown)
        } else {
            None
        }
    }

    /// Position of this class in the fixed order of variants.
    pub fn index(&self) -> (r: u64)
        ensures
            r as int == class_index_spec(*self),
    {
        match self {
            OmikujiClass::GreatBlessing => 0,
            OmikujiClass::MiddleBlessing => 1,
            OmikujiClass::SmallBlessing => 2,
            OmikujiClass::Blessing => 3,
            OmikujiClass::HalfBlessing => 4,
            OmikujiClass::FutureBlessing => 5,
            OmikujiClass::FutureSmallBlessing => 6,
            OmikujiClass::Curse => 7,
            OmikujiClass::SmallCurse => 8,
            OmikujiClass::HalfCurse => 9,
            OmikujiClass::FutureCurse => 10,
            OmikujiClass::GreatCurse => 11,
            OmikujiClass::Unknown => 12,
        }
    }

    /// The class at a given position, inverse of `index`.
    pub fn from_index(i: u64) -> (r: Option<OmikujiClass>)
        ensures
            r == class_from_index_spec(i as int),
    {
        if i == 0 {
            Some(OmikujiClass::GreatBlessing)
        } else if i == 1 {
            Some(OmikujiClass::MiddleBlessing)
        } else if i == 2 {
            Some(OmikujiClass::SmallBlessing)
        } else if i == 3 {
            Some(OmikujiClass::Blessing)
        } else if i == 4 {
            Some(OmikujiClass::HalfBlessing)
        } else if i == 5 {
            Some(OmikujiClass::FutureBlessing)
        } else if i == 6 {
            Some(OmikujiClass::FutureSmallBlessing)
        } else if i == 7 {
            Some(OmikujiClass::Curse)
        } else if i == 8 {
            Some(OmikujiClass::SmallCurse)
        } else if i == 9 {
            Some(OmikujiClass::HalfCurse)
        } else if i == 10 {
            Some(OmikujiClass::FutureCurse)
        } else if i == 11 {
            Some(OmikujiClass::GreatCurse)
        } else if i == 12 {
            Some(OmikujiClass::Unknown)
        } else {
            None
        }
    }
}

/// A class round-trips through its position: parsing the index of any class
/// gives that class back.
pub proof fn lemma_class_index_round_trip(c: OmikujiClass)
    ensures
        class_from_index_spec(class_index_spec(c)) == Some(c),
{
}

/// A class round-trips through its wire token: parsing the token of any class
/// gives that class back.
pub proof fn lemma_class_token_round_trip(c: OmikujiClass)
    ensures
        class_from_token_spec(class_token_spec(c)) == Some(c),
{
    reveal_strlit("GreatBlessing");
    reveal_strlit("MiddleBlessing");
    reveal_strlit("SmallBlessing");
    reveal_strlit("Blessing");
    reveal_strlit("HalfBlessing");
    reveal_strlit("FutureBlessing");
    reveal_strlit("FutureSmallBlessing");
    reveal_strlit("Curse");
    reveal_strlit("SmallCurse");
    reveal_strlit("HalfCurse");
    reveal_strlit("FutureCurse");
    reveal_strlit("GreatCurse");
    reveal_strlit("Unknown");
    // Tokens of different length differ; naming each length brings it in.
    assert("GreatBlessing"@.len() == 13);
    assert("MiddleBlessing"@.len() == 14);
    assert("SmallBlessing"@.len() == 13);
    assert("Blessing"@.len() == 8);
    assert("HalfBlessing"@.len() == 12);
    assert("FutureBlessing"@.len() == 14);
    assert("FutureSmallBlessing"@.len() == 19);
    assert("Curse"@.len() == 5);
    assert("SmallCurse"@.len() == 10);
    assert("HalfCurse"@.len() == 9);
    assert("FutureCurse"@.len() == 11);
    assert("GreatCurse"@.len() == 10);
    assert("Unknown"@.len() == 7);
    // Tokens of equal length are told apart by their first character.
    assert("SmallBlessing"@ != "GreatBlessing"@) by {
        assert("GreatBlessing"@[0] == 'G');
        assert("SmallBlessing"@[0] == 'S');
    }
    assert("FutureBlessing"@ != "MiddleBlessing"@) by {
        assert("MiddleBlessing"@[0] == 'M');
        assert("FutureBlessing"@[0] == 'F');
    }
    assert("GreatCurse"@ != "SmallCurse"@) by {
        assert("SmallCurse"@[0] == 'S');
        assert("GreatCurse"@[0] == 'G');
    }
}

/// The named life-domain categories a slip section can speak about, with an
/// `Other` catch-all. Each occurrence in a slip pairs a category with
/// free-text guidance.
#[derive(Clone, Copy, Debug, PartialEq, Eq, Structural)]
pub enum OmikujiSection {
    FortuneDirection,
    Desire,
    PersonWaitedFor,
    LostArticle,
    Travel,
    Business,
    Study,
    Dispute,
    Love,
    Illness,
    Other,
}

/// Number of `OmikujiSection` variants, the `Other` catch-all included.
pub open spec fn section_count() -> int {
    11
}

/// Position of a section category in the fixed order of variants.
pub open spec fn section_index_spec(k: OmikujiSection) -> int {
    match k {
        OmikujiSection::FortuneDirection => 0,
        OmikujiSection::Desire => 1,
        OmikujiSection::PersonWaitedFor => 2,
        OmikujiSection::LostArticle => 3,
        OmikujiSection::Travel => 4,
        OmikujiSection::Business => 5,
        OmikujiSection::Study => 6,
        OmikujiSection::Dispute => 7,
        OmikujiSection::Love => 8,
        OmikujiSection::Illness => 9,
        OmikujiSection::Other => 10,
    }
}

/// The section category at a given position, inverse of `section_index_spec`.
pub open spec fn section_from_index_spec(i: int) -> Option<OmikujiSection> {
    if i == 0 {
        Some(OmikujiSection::FortuneDirection)
    } else if i == 1 {
        Some(OmikujiSection::Desire)
    } else if i == 2 {
        Some(OmikujiSection::PersonWaitedFor)
    } else if i == 3 {
        Some(OmikujiSection::LostArticle)
    } else if i == 4 {
        Some(OmikujiSection::Travel)
    } else if i == 5 {
        Some(OmikujiSection::Business)
    } else if i == 6 {
        Some(OmikujiSection::Study)
    } else if i == 7 {
        Some(OmikujiSection::Dispute)
    } else if i == 8 {
        Some(OmikujiSection::Love)
    } else if i == 9 {
        Some(OmikujiSection::Illness)
    } else if i == 10 {
        Some(OmikujiSection::Other)
    } else {
        None
    }
}

/// The wire token of a section category: the variant's name.
pub open spec fn section_token_spec(k: OmikujiSection) -> Seq<char> {
    match k {
        OmikujiSection::FortuneDirection => "FortuneDirection"@,
        OmikujiSection::Desire => "Desire"@,
        OmikujiSection::PersonWaitedFor => "PersonWaitedFor"@,
        OmikujiSection::LostArticle => "LostArticle"@,
        OmikujiSection::Travel => "Travel"@,
        OmikujiSection::Business => "Business"@,
        OmikujiSection::Study => "Study"@,
        OmikujiSection::Dispute => "Dispute"@,
        OmikujiSection::Love => "Love"@,
        OmikujiSection::Illness => "Illness"@,
        OmikujiSection::Other => "Other"@,
    }
}

/// Total parse of a wire token into a section category; `None` on any
/// unknown token.
pub open spec fn section_from_token_spec(s: Seq<char>) -> Option<OmikujiSection> {
    if s == "FortuneDirection"@ {
        Some(OmikujiSection::FortuneDirection)
    } else if s == "Desire"@ {
        Some(OmikujiSection::Desire)
    } else if s == "PersonWaitedFor"@ {
        Some(OmikujiSection::PersonWaitedFor)
    } else if s == "LostArticle"@ {
        Some(OmikujiSection::LostArticle)
    } else if s == "Travel"@ {
        Some(OmikujiSection::Travel)
    } else if s == "Business"@ {
        Some(OmikujiSection::Business)
    } else if s == "Study"@ {
        Some(OmikujiSection::Study)
    } else if s == "Dispute"@ {
        Some(OmikujiSection::Dispute)
    } else if s == "Love"@ {
        Some(OmikujiSection::Love)
    } else if s == "Illness"@ {
        Some(OmikujiSection::Illness)
    } else if s == "Other"@ {
        Some(OmikujiSection::Other)
    } else {
        None
    }
}

impl OmikujiSection {
    /// The wire token of this section category.
    pub fn token(&self) -> (r: &'static str)
        ensures
            r@ == section_token_spec(*self),
    {
        match self {
            OmikujiSection::FortuneDirection => "FortuneDirection",
            OmikujiSection::Desire => "Desire",
            OmikujiSection::PersonWaitedFor => "PersonWaitedFor",
            OmikujiSection::LostArticle => "LostArticle",
            OmikujiSection::Travel => "Travel",
            OmikujiSection::Business => "Business",
            OmikujiSection::Study => "Study",
            OmikujiSection::Dispute => "Dispute",
            OmikujiSection::Love => "Love",
            OmikujiSection::Illness => "Illness",
            OmikujiSection::Other => "Other",
        }
    }

    /// Parse a wire token; total, `None` on an unknown token.
    pub fn from_token(s: &str) -> (r: Option<OmikujiSection>)
        ensures
            r == section_from_token_spec(s@),
    {
        if str_eq(s, "FortuneDirection") {
            Some(OmikujiSection::FortuneDirection)
        } else if str_eq(s, "Desire") {
            Some(OmikujiSection::Desire)
        } else if str_eq(s, "PersonWaitedFor") {
            Some(OmikujiSection::PersonWaitedFor)
        } else if str_eq(s, "LostArticle") {
            Some(OmikujiSection::LostArticle)
        } else if str_eq(s, "Travel") {
            Some(OmikujiSection::Travel)
        } else if str_eq(s, "Business") {
            Some(OmikujiSection::Business)
        } else if str_eq(s, "Study") {
            Some(OmikujiSection::Study)
        } else if str_eq(s, "Dispute") {
            Some(OmikujiSection::Dispute)
        } else if str_eq(s, "Love") {
            Some(OmikujiSection::Love)
        } else if str_eq(s, "Illness") {
            Some(OmikujiSection::Illness)
        } else if str_eq(s, "Other") {
            Some(OmikujiSection::Other)
        } else {
            None
        }
    }

    /// Position of this section category in the fixed order of variants.
    pub fn index(&self) -> (r: u64)
        ensures
            r as int == section_index_spec(*self),
    {
        match self {
            OmikujiSection::FortuneDirection => 0,
            OmikujiSection::Desire => 1,
            OmikujiSection::PersonWaitedFor => 2,
            OmikujiSection::LostArticle => 3,
            OmikujiSection::Travel => 4,
            OmikujiSection::Business => 5,
            OmikujiSection::Study => 6,
            OmikujiSection::Dispute => 7,
            OmikujiSection::Love => 8,
            OmikujiSection::Illness => 9,
            OmikujiSection::Other => 10,
        }
    }

    /// The section category at a given position, inverse of `index`.
    pub fn from_index(i: u64) -> (r: Option<OmikujiSection>)
        ensures
            r == section_from_index_spec(i as int),
    {
        if i == 0 {
            Some(OmikujiSection::FortuneDirection)
        } else if i == 1 {
            Some(OmikujiSection::Desire)
        } else if i == 2 {
            Some(OmikujiSection::PersonWaitedFor)
        } else if i == 3 {
            Some(OmikujiSection::LostArticle)
        } else if i == 4 {
            Some(OmikujiSection::Travel)
        } else if i == 5 {
            Some(OmikujiSection::Business)
        } else if i == 6 {
            Some(OmikujiSection::Study)
        } else if i == 7 {
            Some(OmikujiSection::Dispute)
        } else if i == 8 {
            Some(OmikujiSection::Love)
        } else if i == 9 {
            Some(OmikujiSection::Illness)
        } else if i == 10 {
            Some(OmikujiSection::Other)
        } else {
            None
        }
    }
}

/// A section category round-trips through its position.
pub proof fn lemma_section_index_round_trip(k: OmikujiSection)
    ensures
        section_from_index_spec(section_index_spec(k)) == Some(k),
{
}

/// A section category round-trips through its wire token.
pub proof fn lemma_section_token_round_trip(k: OmikujiSection)
    ensures
        section_from_token_spec(section_token_spec(k)) == Some(k),
{
    reveal_strlit("FortuneDirection");
    reveal_strlit("Desire");
    reveal_strlit("PersonWaitedFor");
    reveal_strlit("LostArticle");
    reveal_strlit("Travel");
    reveal_strlit("Business");
    reveal_strlit("Study");
    reveal_strlit("Dispute");
    reveal_strlit("Love");
    reveal_strlit("Illness");
    reveal_strlit("Other");
    // Tokens of different length differ; naming each length brings it in.
    assert("FortuneDirection"@.len() == 16);
    assert("Desire"@.len() == 6);
    assert("PersonWaitedFor"@.len() == 15);
    assert("LostArticle"@.len() == 11);
    assert("Travel"@.len() == 6);
    assert("Business"@.len() == 8);
    assert("Study"@.len() == 5);
    assert("Dispute"@.len() == 7);
    assert("Love"@.len() == 4);
    assert("Illness"@.len() == 7);
    assert("Other"@.len() == 5);
    // Tokens of equal length are told apart by their first character.
    assert("Travel"@ != "Desire"@) by {
        assert("Desire"@[0] == 'D');
        assert("Travel"@[0] == 'T');
    }
    assert("Illness"@ != "Dispute"@) by {
        assert("Dispute"@[0] == 'D');
        assert("Illness"@[0] == 'I');
    }
    assert("Other"@ != "Study"@) by {
        assert("Study"@[0] == 'S');
        assert("Other"@[0] == 'O');
    }
}

/// An in-progress fortune slip, owned by one user identity while it is being
/// authored. `class` and `description` are set at most once each; sections
/// are appended one at a time, and only the last may still await its text.
#[derive(Debug, PartialEq)]
pub struct OmikujiMessage {
    pub class: Option<OmikujiClass>,
    pub description: Option<String>,
    pub sections: Vec<(OmikujiSection, String)>,
    pub photo: Option<String>,
}

/// Mathematical value of a draft: the same shape with text as `Seq<char>`.
#[verifier::ext_equal]
pub ghost struct DraftView {
    pub class: Option<OmikujiClass>,
    pub description: Option<Seq<char>>,
    pub sections: Seq<(OmikujiSection, Seq<char>)>,
    pub photo: Option<Seq<char>>,
}

/// The mathematical value of optional text.
pub open spec fn opt_text_view(o: Option<String>) -> Option<Seq<char>> {
    match o {
        Some(t) => Some(t@),
        None => None,
    }
}

/// The mathematical value of a section list.
pub open spec fn sections_view(v: Seq<(OmikujiSection, String)>) -> Seq<
    (OmikujiSection, Seq<char>),
> {
    v.map_values(|p: (OmikujiSection, String)| (p.0, p.1@))
}

impl View for OmikujiMessage {
    type V = DraftView;

    open spec fn view(&self) -> DraftView {
        DraftView {
            class: self.class,
            description: opt_text_view(self.description),
            sections: sections_view(self.sections@),
            photo: opt_text_view(self.photo),
        }
    }
}

/// The draft that a fresh "start new" action creates: nothing set yet.
pub open spec fn empty_draft() -> DraftView {
    DraftView { class: None, description: None, sections: Seq::empty(), photo: None }
}

/// Well-formedness of a draft while it sits in the session store: fields are
/// filled strictly in order (class, then description, then sections), every
/// section but the last has its text, and no photo is attached before the
/// commit step.
pub open spec fn draft_inv(d: DraftView) -> bool {
    &&& d.class is None ==> d.description is None
    &&& d.description is None ==> d.sections.len() == 0
    &&& forall|i: int| 0 <= i < d.sections.len() - 1 ==> (#[trigger] d.sections[i]).1.len() > 0
    &&& d.photo is None
}

/// The authoring step a draft is waiting on, read off from its contents.
#[derive(Clone, Copy, Debug, PartialEq, Eq, Structural)]
pub enum SubmissionStep {
    AwaitingClass,
    AwaitingDescription,
    AwaitingSectionChoice,
    AwaitingSectionDescription,
}

/// Which step an in-store draft is at.
pub open spec fn draft_step(d: DraftView) -> SubmissionStep {
    if d.class is None {
        SubmissionStep::AwaitingClass
    } else if d.description is None {
        SubmissionStep::AwaitingDescription
    } else if d.sections.len() == 0 {
        SubmissionStep::AwaitingSectionChoice
    } else if d.sections.last().1.len() == 0 {
        SubmissionStep::AwaitingSectionDescription
    } else {
        SubmissionStep::AwaitingSectionChoice
    }
}

/// The single gate for commit-readiness: at least one section exists and the
/// most recently appended one has non-empty text.
pub open spec fn commit_ready(d: DraftView) -> bool {
    d.sections.len() > 0 && d.sections.last().1.len() > 0
}

/// Text laid out for one slip section: a bold category name, a colon, and
/// the section's guidance, on a line of its own.
pub open spec fn render_sections_spec(ss: Seq<(OmikujiSection, Seq<char>)>) -> Seq<char>
    decreases ss.len(),
{
    if ss.len() == 0 {
        Seq::empty()
    } else {
        render_sections_spec(ss.drop_last()) + "\n*"@ + section_token_spec(ss.last().0) + "*: "@
            + ss.last().1
    }
}

/// Text laid out for a whole draft: the class in bold on its own line, the
/// description on the next, then one line per section.
pub open spec fn render_spec(d: DraftView) -> Seq<char> {
    let class_part = match d.class {
        Some(c) => "*"@ + class_token_spec(c) + "*\n"@,
        None => Seq::<char>::empty(),
    };
    let desc_part = match d.description {
        Some(t) => t + "\n"@,
        None => Seq::<char>::empty(),
    };
    class_part + desc_part + render_sections_spec(d.sections)
}

impl OmikujiMessage {
    /// A draft with nothing set yet.
    pub fn empty() -> (r: OmikujiMessage)
        ensures
            r@ == empty_draft(),
    {
        let r = OmikujiMessage { class: None, description: None, sections: Vec::new(), photo: None };
        proof {
            assert(r@.sections =~= empty_draft().sections);
        }
        r
    }

    /// An independent copy with the same contents.
    pub fn duplicate(&self) -> (r: OmikujiMessage)
        ensures
            r@ == self@,
    {
        let description = match &self.description {
            Some(d) => Some(d.clone()),
            None => None,
        };
        let photo = match &self.photo {
            Some(p) => Some(p.clone()),
            None => None,
        };
        let mut sections: Vec<(OmikujiSection, String)> = Vec::new();
        let mut i: usize = 0;
        while i < self.sections.len()
            invariant
                i <= self.sections.len(),
                sections@.len() == i,
                forall|j: int|
                    0 <= j < i ==> (#[trigger] sections@[j]).0 == self.sections@[j].0
                        && sections@[j].1@ == self.sections@[j].1@,
            decreases self.sections.len() - i,
        {
            let (kind, text) = &self.sections[i];
            sections.push((*kind, text.clone()));
            i = i + 1;
        }
        let r = OmikujiMessage { class: self.class, description, sections, photo };
        proof {
            assert(r@.sections =~= self@.sections);
            assert(r@ =~= self@);
        }
        r
    }

    /// The authoring step this draft is waiting on.
    pub fn step(&self) -> (r: SubmissionStep)
        ensures
            r == draft_step(self@),
    {
        if self.class.is_none() {
            SubmissionStep::AwaitingClass
        } else if self.description.is_none() {
            SubmissionStep::AwaitingDescription
        } else if self.sections.len() == 0 {
            SubmissionStep::AwaitingSectionChoice
        } else {
            let (_, last_text) = &self.sections[self.sections.len() - 1];
            if last_text.as_str().unicode_len() == 0 {
                SubmissionStep::AwaitingSectionDescription
            } else {
                SubmissionStep::AwaitingSectionChoice
            }
        }
    }

    /// The draft laid out as text, as the transport shows it to its author.
    pub fn render(&self) -> (r: String)
        ensures
            r@ == render_spec(self@),
    {
        let mut text = String::new();
        if let Some(class) = &self.class {
            text.append("*");
            text.append(class.token());
            text.append("*\n");
        }
        if let Some(description) = &self.description {
            text.append(description.as_str());
            text.append("\n");
        }
        let ghost head = text@;
        let mut i: usize = 0;
        while i < self.sections.len()
            invariant
                i <= self.sections.len(),
                text@ == head + render_sections_spec(self@.sections.take(i as int)),
            decreases self.sections.len() - i,
        {
            let (kind, body) = &self.sections[i];
            text.append("\n*");
            text.append(kind.token());
            text.append("*: ");
            text.append(body.as_str());
            proof {
                let taken = self@.sections.take(i + 1 as int);
                assert(taken.drop_last() =~= self@.sections.take(i as int));
                assert(taken.last() == self@.sections[i as int]);
            }
            i = i + 1;
        }
        proof {
            assert(self@.sections.take(self.sections@.len() as int) =~= self@.sections);
        }
        text
    }
}

/// A committed, durable fortune slip. The serialized message is written once
/// at commit and treated as an opaque blob afterwards; only the moderation
/// score and its timestamp ever change.
#[derive(Debug, PartialEq)]
pub struct Omikuji {
    pub id: u32,
    pub photo: Option<String>,
    pub message: String,
    pub vote_count: i32,
    pub tg_id: i64,
    pub tg_name: String,
    pub updated_at: i64,
    pub created_at: i64,
}

/// The payload for creating a slip: the serialized message and the author's
/// identity and display name.
#[derive(Debug, PartialEq)]
pub struct NewOmikuji {
    pub message: String,
    pub tg_id: i64,
    pub tg_name: String,
}

} // verus!
