use omikuji_bot::codec::{decode, encode};
use omikuji_bot::models::{OmikujiClass, OmikujiMessage, OmikujiSection};

fn full_draft() -> OmikujiMessage {
    OmikujiMessage {
        class: Some(OmikujiClass::GreatBlessing),
        description: Some(String::from("good fortune")),
        sections: vec![
            (OmikujiSection::Travel, String::from("safe journeys")),
            (OmikujiSection::Love, String::from("a warm year")),
        ],
        photo: Some(String::from("file-123")),
    }
}

#[test]
fn round_trip_full_draft() {
    let draft = full_draft();
    let wire = encode(&draft);
    let back = decode(wire.as_str()).expect("encoding must decode");
    assert_eq!(back, full_draft());
}

#[test]
fn round_trip_empty_draft() {
    let draft = OmikujiMessage { class: None, description: None, sections: vec![], photo: None };
    let wire = encode(&draft);
    assert_eq!(wire, "v1NN0.N");
    let back = decode(wire.as_str()).expect("encoding must decode");
    assert_eq!(back.class, None);
    assert_eq!(back.description, None);
    assert_eq!(back.sections.len(), 0);
    assert_eq!(back.photo, None);
}

#[test]
fn exact_wire_form() {
    let draft = OmikujiMessage {
        class: Some(OmikujiClass::GreatBlessing),
        description: Some(String::from("hi")),
        sections: vec![(OmikujiSection::Travel, String::from("safe journeys"))],
        photo: None,
    };
    assert_eq!(encode(&draft), "v1S0.S2.hi1.4.13.safe journeysN");
}

#[test]
fn round_trip_open_section() {
    let draft = OmikujiMessage {
        class: Some(OmikujiClass::SmallCurse),
        description: Some(String::from("")),
        sections: vec![(OmikujiSection::Other, String::new())],
        photo: None,
    };
    let wire = encode(&draft);
    let back = decode(wire.as_str()).expect("encoding must decode");
    assert_eq!(back, draft);
}

#[test]
fn round_trip_text_with_wire_characters() {
    let draft = OmikujiMessage {
        class: Some(OmikujiClass::Blessing),
        description: Some(String::from("dots. and S1.N|v1 markers / 数字")),
        sections: vec![(OmikujiSection::Study, String::from("12.34."))],
        photo: None,
    };
    let wire = encode(&draft);
    let back = decode(wire.as_str()).expect("encoding must decode");
    assert_eq!(back, draft);
}

#[test]
fn decode_rejects_garbage() {
    assert_eq!(decode(""), None);
    assert_eq!(decode("v"), None);
    assert_eq!(decode("v2NN0.N"), None);
    assert_eq!(decode("x1NN0.N"), None);
    assert_eq!(decode("v1"), None);
    assert_eq!(decode("v1NN"), None);
    assert_eq!(decode("v1NN0."), None);
    // trailing rubbish after a complete message
    assert_eq!(decode("v1NN0.Nx"), None);
    // a length that overruns the input
    assert_eq!(decode("v1S0.S99.hi1.4.3.abcN"), None);
    // a class index out of range
    assert_eq!(decode("v1S13.S2.hi0.N"), None);
    // a section index out of range
    assert_eq!(decode("v1S0.S2.hi1.11.3.abcN"), None);
}
