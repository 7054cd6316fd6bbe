//! Option lists for the transport to render as buttons: every class and
//! every section category, each labelled with its token and carrying the
//! callback `command/token`, laid out two to a row.

use vstd::prelude::*;

use crate::models::OmikujiClass;
use crate::models::OmikujiSection;
use crate::models::class_from_index_spec;
use crate::models::class_token_spec;
use crate::models::section_from_index_spec;
use crate::models::section_token_spec;

verus! {

/// The mathematical value of a list of button rows.
pub open spec fn rows_view(rs: Seq<Vec<(String, String)>>) -> Seq<Seq<(String, String)>> {
    rs.map_values(|v: Vec<(String, String)>| v@)
}

/// Buttons laid out two to a row, in order, the last row holding the
/// remainder.
pub open spec fn keyboard_rows_spec(b: Seq<(String, String)>) -> Seq<Seq<(String, String)>>
    decreases b.len(),
{
    if b.len() == 0 {
        Seq::empty()
    } else if b.len() == 1 {
        seq![b]
    } else {
        seq![b.take(2)] + keyboard_rows_spec(b.skip(2))
    }
}

/// Lay buttons out two to a row.
pub fn to_keyboard(buttons: Vec<(String, String)>) -> (rows: Vec<Vec<(String, String)>>)
    ensures
        rows_view(rows@) == keyboard_rows_spec(buttons@),
{
    let ghost b0 = buttons@;
    let mut buttons = buttons;
    let mut rows: Vec<Vec<(String, String)>> = Vec::new();
    proof {
        assert(rows_view(rows@) =~= Seq::<Seq<(String, String)>>::empty());
    }
    while buttons.len() > 0
        invariant
            keyboard_rows_spec(b0) == rows_view(rows@) + keyboard_rows_spec(buttons@),
        decreases buttons.len(),
    {
        let ghost before = buttons@;
        let ghost rows_before = rows@;
        let mut row: Vec<(String, String)> = Vec::new();
        let first = buttons.remove(0);
        row.push(first);
        if buttons.len() > 0 {
            let second = buttons.remove(0);
            row.push(second);
            proof {
                assert(row@ =~= before.take(2));
                assert(buttons@ =~= before.skip(2));
            }
        } else {
            proof {
                assert(row@ =~= before);
                assert(before.len() == 1);
            }
        }
        rows.push(row);
        proof {
            assert(rows_view(rows@) =~= rows_view(rows_before).push(row@));
            if before.len() == 1 {
                assert(keyboard_rows_spec(before) =~= seq![before]);
                assert(keyboard_rows_spec(buttons@) =~= Seq::<Seq<(String, String)>>::empty());
                assert(rows_view(rows@) + keyboard_rows_spec(buttons@) =~= rows_view(rows_before)
                    + keyboard_rows_spec(before));
            } else {
                assert(keyboard_rows_spec(before) =~= seq![before.take(2)] + keyboard_rows_spec(
                    before.skip(2),
                ));
                assert(rows_view(rows@) + keyboard_rows_spec(buttons@) =~= rows_view(rows_before)
                    + keyboard_rows_spec(before));
            }
        }
    }
    proof {
        assert(keyboard_rows_spec(buttons@) =~= Seq::<Seq<(String, String)>>::empty());
        assert(rows_view(rows@) =~= rows_view(rows@) + keyboard_rows_spec(buttons@));
    }
    rows
}

/// One labelled button: the token as the label, `command/token` as the
/// callback body.
fn labelled_button(command: &str, label: &str) -> (r: (String, String))
    ensures
        r.0@ == label@,
        r.1@ == command@ + seq!['/'] + label@,
{
    proof {
        reveal_strlit("/");
    }
    let mut callback = String::from_str(command);
    callback.append("/");
    callback.append(label);
    proof {
        assert(callback@ =~= command@ + seq!['/'] + label@);
    }
    (String::from_str(label), callback)
}

/// The class options, one button per class in their fixed order, with
/// callbacks of the form `choose-class/token`.
pub fn class_buttons() -> (r: Vec<(String, String)>)
    ensures
        r@.len() == crate::models::class_count(),
        forall|i: int|
            0 <= i < r@.len() ==> (#[trigger] r@[i]).0@ == class_token_spec(
                class_from_index_spec(i).unwrap(),
            ) && r@[i].1@ == "choose-class"@ + seq!['/'] + class_token_spec(class_from_index_spec(i).unwrap()),
{
    let mut r: Vec<(String, String)> = Vec::new();
    let mut i: u64 = 0;
    while i < 13
        invariant
            i <= 13,
            r@.len() == i,
            forall|j: int|
                0 <= j < i ==> (#[trigger] r@[j]).0@ == class_token_spec(
                    class_from_index_spec(j).unwrap(),
                ) && r@[j].1@ == "choose-class"@ + seq!['/'] + class_token_spec(
                    class_from_index_spec(j).unwrap(),
                ),
        decreases 13 - i,
    {
        match OmikujiClass::from_index(i) {
            Some(c) => {
                let button = labelled_button("choose-class", c.token());
                r.push(button);
            },
            None => {
                proof {
                    assert(false);
                }
            },
        }
        i = i + 1;
    }
    r
}

/// The section options, one button per section category in their fixed
/// order, with callbacks of the form `choose-section/token`.
pub fn section_buttons() -> (r: Vec<(String, String)>)
    ensures
        r@.len() == crate::models::section_count(),
        forall|i: int|
            0 <= i < r@.len() ==> (#[trigger] r@[i]).0@ == section_token_spec(
                section_from_index_spec(i).unwrap(),
            ) && r@[i].1@ == "choose-section"@ + seq!['/'] + section_token_spec(
                section_from_index_spec(i).unwrap(),
            ),
{
    let mut r: Vec<(String, String)> = Vec::new();
    let mut i: u64 = 0;
    while i < 11
        invariant
            i <= 11,
            r@.len() == i,
            forall|j: int|
                0 <= j < i ==> (#[trigger] r@[j]).0@ == section_token_spec(
                    section_from_index_spec(j).unwrap(),
                ) && r@[j].1@ == "choose-section"@ + seq!['/'] + section_token_spec(
                    section_from_index_spec(j).unwrap(),
                ),
        decreases 11 - i,
    {
        match OmikujiSection::from_index(i) {
            Some(k) => {
                let button = labelled_button("choose-section", k.token());
                r.push(button);
            },
            None => {
                proof {
                    assert(false);
                }
            },
        }
        i = i + 1;
    }
    r
}

} // verus!
