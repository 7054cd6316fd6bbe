use omikuji_bot::models::{OmikujiClass, OmikujiMessage, OmikujiSection, SubmissionStep};
use omikuji_bot::text::{full_name, str_eq};

const CLASS_TOKENS: [&str; 13] = [
    "GreatBlessing",
    "MiddleBlessing",
    "SmallBlessing",
    "Blessing",
    "HalfBlessing",
    "FutureBlessing",
    "FutureSmallBlessing",
    "Curse",
    "SmallCurse",
    "HalfCurse",
    "FutureCurse",
    "GreatCurse",
    "Unknown",
];

const SECTION_TOKENS: [&str; 11] = [
    "FortuneDirection",
    "Desire",
    "PersonWaitedFor",
    "LostArticle",
    "Travel",
    "Business",
    "Study",
    "Dispute",
    "Love",
    "Illness",
    "Other",
];

#[test]
fn class_tokens_round_trip() {
    for (i, token) in CLASS_TOKENS.iter().enumerate() {
        let c = OmikujiClass::from_index(i as u64).expect("index in range");
        assert_eq!(c.token(), *token);
        assert_eq!(OmikujiClass::from_token(token), Some(c));
        assert_eq!(c.index(), i as u64);
    }
    assert_eq!(OmikujiClass::from_index(13), None);
    assert_eq!(OmikujiClass::from_token("Nope"), None);
    assert_eq!(OmikujiClass::from_token("greatblessing"), None);
    assert_eq!(OmikujiClass::from_token(""), None);
}

#[test]
fn section_tokens_round_trip() {
    for (i, token) in SECTION_TOKENS.iter().enumerate() {
        let k = OmikujiSection::from_index(i as u64).expect("index in range");
        assert_eq!(k.token(), *token);
        assert_eq!(OmikujiSection::from_token(token), Some(k));
        assert_eq!(k.index(), i as u64);
    }
    assert_eq!(OmikujiSection::from_index(11), None);
    assert_eq!(OmikujiSection::from_token("Weather"), None);
}

#[test]
fn render_lays_out_the_draft() {
    let draft = OmikujiMessage {
        class: Some(OmikujiClass::GreatBlessing),
        description: Some(String::from("good fortune")),
        sections: vec![
            (OmikujiSection::Travel, String::from("safe journeys")),
            (OmikujiSection::Love, String::from("a warm year")),
        ],
        photo: None,
    };
    assert_eq!(
        draft.render(),
        "*GreatBlessing*\ngood fortune\n\n*Travel*: safe journeys\n*Love*: a warm year"
    );
}

#[test]
fn render_of_empty_draft_is_empty() {
    let draft = OmikujiMessage { class: None, description: None, sections: vec![], photo: None };
    assert_eq!(draft.render(), "");
}

#[test]
fn duplicate_copies_everything() {
    let draft = OmikujiMessage {
        class: Some(OmikujiClass::Curse),
        description: Some(String::from("beware")),
        sections: vec![(OmikujiSection::Dispute, String::from("lie low"))],
        photo: Some(String::from("file-9")),
    };
    assert_eq!(draft.duplicate(), draft);
}

#[test]
fn step_reads_off_the_draft() {
    let mut draft =
        OmikujiMessage { class: None, description: None, sections: vec![], photo: None };
    assert_eq!(draft.step(), SubmissionStep::AwaitingClass);
    draft.class = Some(OmikujiClass::Blessing);
    assert_eq!(draft.step(), SubmissionStep::AwaitingDescription);
    draft.description = Some(String::from("soon"));
    assert_eq!(draft.step(), SubmissionStep::AwaitingSectionChoice);
    draft.sections.push((OmikujiSection::Love, String::new()));
    assert_eq!(draft.step(), SubmissionStep::AwaitingSectionDescription);
    draft.sections[0].1 = String::from("a warm year");
    assert_eq!(draft.step(), SubmissionStep::AwaitingSectionChoice);
}

#[test]
fn str_eq_compares_contents() {
    assert!(str_eq("", ""));
    assert!(str_eq("abc", "abc"));
    assert!(!str_eq("abc", "abd"));
    assert!(!str_eq("abc", "abcd"));
    assert!(str_eq("数字", "数字"));
    assert!(!str_eq("数字", "数"));
}

#[test]
fn full_name_joins_parts() {
    assert_eq!(full_name("Ada", Some("Lovelace")), "Ada Lovelace");
    assert_eq!(full_name("Ada", None), "Ada");
}
