use omikuji_bot::keyboard::{class_buttons, section_buttons, to_keyboard};

#[test]
fn class_buttons_cover_every_class() {
    let buttons = class_buttons();
    assert_eq!(buttons.len(), 13);
    assert_eq!(buttons[0].0, "GreatBlessing");
    assert_eq!(buttons[0].1, "choose-class/GreatBlessing");
    assert_eq!(buttons[12].0, "Unknown");
    assert_eq!(buttons[12].1, "choose-class/Unknown");
}

#[test]
fn section_buttons_cover_every_section() {
    let buttons = section_buttons();
    assert_eq!(buttons.len(), 11);
    assert_eq!(buttons[4].0, "Travel");
    assert_eq!(buttons[4].1, "choose-section/Travel");
    assert_eq!(buttons[10].0, "Other");
    assert_eq!(buttons[10].1, "choose-section/Other");
}

#[test]
fn keyboard_rows_hold_two_buttons_each() {
    let rows = to_keyboard(class_buttons());
    assert_eq!(rows.len(), 7);
    for row in rows.iter().take(6) {
        assert_eq!(row.len(), 2);
    }
    assert_eq!(rows[6].len(), 1);
    assert_eq!(rows[0][0].0, "GreatBlessing");
    assert_eq!(rows[0][1].0, "MiddleBlessing");
    assert_eq!(rows[6][0].0, "Unknown");
}

#[test]
fn keyboard_of_nothing_is_empty() {
    let rows = to_keyboard(Vec::new());
    assert_eq!(rows.len(), 0);
}
