//! The stable, versioned text encoding of a draft, used as the serialized
//! message of a committed slip. The format is length-prefixed and so needs no
//! escaping: a number is its decimal digits closed by `.`; a text is its
//! length followed by its characters; an optional value is `S` and the value,
//! or `N` alone; a class or section category is its variant position. A whole
//! message is the header `v1`, the class, the description, the section count,
//! the sections (category then text each), and the photo reference.
//!
//! Decoding inverts encoding: the encoding of any draft decodes back to
//! exactly that draft, and a string that does not parse as a whole message
//! is rejected.

use vstd::prelude::*;

use vstd::arithmetic::div_mod::lemma_fundamental_div_mod;

use crate::models::DraftView;
use crate::models::OmikujiClass;
use crate::models::OmikujiMessage;
use crate::models::OmikujiSection;
use crate::models::class_from_index_spec;
use crate::models::class_index_spec;
use crate::models::section_from_index_spec;
use crate::models::section_index_spec;

verus! {

/// The largest number the wire format carries: a count or a text length.
pub open spec fn num_limit() -> int {
    u64::MAX as int
}

/// Whether a character is a decimal digit.
pub open spec fn is_digit(c: char) -> bool {
    ||| c == '0'
    ||| c == '1'
    ||| c == '2'
    ||| c == '3'
    ||| c == '4'
    ||| c == '5'
    ||| c == '6'
    ||| c == '7'
    ||| c == '8'
    ||| c == '9'
}

/// The value of a decimal digit character.
pub open spec fn digit_val(c: char) -> int {
    if c == '0' {
        0
    } else if c == '1' {
        1
    } else if c == '2' {
        2
    } else if c == '3' {
        3
    } else if c == '4' {
        4
    } else if c == '5' {
        5
    } else if c == '6' {
        6
    } else if c == '7' {
        7
    } else if c == '8' {
        8
    } else {
        9
    }
}

/// The character of a decimal digit value.
pub open spec fn digit_char(d: int) -> char {
    if d == 0 {
        '0'
    } else if d == 1 {
        '1'
    } else if d == 2 {
        '2'
    } else if d == 3 {
        '3'
    } else if d == 4 {
        '4'
    } else if d == 5 {
        '5'
    } else if d == 6 {
        '6'
    } else if d == 7 {
        '7'
    } else if d == 8 {
        '8'
    } else {
        '9'
    }
}

/// Decimal digits of a number, most significant first.
pub open spec fn dec_of(n: int) -> Seq<char>
    decreases n,
{
    if n < 10 {
        seq![digit_char(n)]
    } else {
        dec_of(n / 10).push(digit_char(n % 10))
    }
}

/// A number on the wire: its digits closed by `.`.
pub open spec fn enc_num(n: int) -> Seq<char> {
    dec_of(n) + seq!['.']
}

/// A text on the wire: its length, then its characters.
pub open spec fn enc_str(t: Seq<char>) -> Seq<char> {
    enc_num(t.len() as int) + t
}

/// An optional text on the wire.
pub open spec fn enc_opt_str(o: Option<Seq<char>>) -> Seq<char> {
    match o {
        Some(t) => seq!['S'] + enc_str(t),
        None => seq!['N'],
    }
}

/// An optional class on the wire: its variant position.
pub open spec fn enc_opt_class(o: Option<OmikujiClass>) -> Seq<char> {
    match o {
        Some(c) => seq!['S'] + enc_num(class_index_spec(c)),
        None => seq!['N'],
    }
}

/// The sections of a draft on the wire, in order: each is its category's
/// variant position, then its text.
pub open spec fn enc_sections(ss: Seq<(OmikujiSection, Seq<char>)>) -> Seq<char>
    decreases ss.len(),
{
    if ss.len() == 0 {
        Seq::empty()
    } else {
        enc_num(section_index_spec(ss.first().0)) + enc_str(ss.first().1) + enc_sections(
            ss.drop_first(),
        )
    }
}

/// A whole draft on the wire: header, class, description, section count,
/// sections, photo reference.
pub open spec fn encode_spec(d: DraftView) -> Seq<char> {
    seq!['v', '1'] + enc_opt_class(d.class) + enc_opt_str(d.description) + enc_num(
        d.sections.len() as int,
    ) + enc_sections(d.sections) + enc_opt_str(d.photo)
}

/// One step of number parsing: consume digits into `acc` until the closing
/// `.`; fail on a missing digit, a stray character, or a value beyond the
/// wire limit.
pub open spec fn parse_num_rec(s: Seq<char>, acc: int, seen: bool) -> Option<(int, Seq<char>)>
    decreases s.len(),
{
    if s.len() == 0 {
        None
    } else if s[0] == '.' {
        if seen {
            Some((acc, s.skip(1)))
        } else {
            None
        }
    } else if is_digit(s[0]) {
        if acc * 10 + digit_val(s[0]) > num_limit() {
            None
        } else {
            parse_num_rec(s.skip(1), acc * 10 + digit_val(s[0]), true)
        }
    } else {
        None
    }
}

/// Parse a number from the front of the input.
pub open spec fn parse_num(s: Seq<char>) -> Option<(int, Seq<char>)> {
    parse_num_rec(s, 0, false)
}

/// Parse a text from the front of the input: its length, then that many
/// characters.
pub open spec fn parse_str(s: Seq<char>) -> Option<(Seq<char>, Seq<char>)> {
    match parse_num(s) {
        Some((n, r)) => {
            if n <= r.len() {
                Some((r.take(n), r.skip(n)))
            } else {
                None
            }
        },
        None => None,
    }
}

/// Parse an optional text from the front of the input.
pub open spec fn parse_opt_str(s: Seq<char>) -> Option<(Option<Seq<char>>, Seq<char>)> {
    if s.len() == 0 {
        None
    } else if s[0] == 'N' {
        Some((None, s.skip(1)))
    } else if s[0] == 'S' {
        match parse_str(s.skip(1)) {
            Some((t, r)) => Some((Some(t), r)),
            None => None,
        }
    } else {
        None
    }
}

/// Parse an optional class from the front of the input.
pub open spec fn parse_opt_class(s: Seq<char>) -> Option<(Option<OmikujiClass>, Seq<char>)> {
    if s.len() == 0 {
        None
    } else if s[0] == 'N' {
        Some((None, s.skip(1)))
    } else if s[0] == 'S' {
        match parse_num(s.skip(1)) {
            Some((n, r)) => match class_from_index_spec(n) {
                Some(c) => Some((Some(c), r)),
                None => None,
            },
            None => None,
        }
    } else {
        None
    }
}

/// Parse one section: its category's variant position, then its text.
pub open spec fn parse_section(s: Seq<char>) -> Option<((OmikujiSection, Seq<char>), Seq<char>)> {
    match parse_num(s) {
        Some((n, r)) => match section_from_index_spec(n) {
            Some(k) => match parse_str(r) {
                Some((t, r2)) => Some(((k, t), r2)),
                None => None,
            },
            None => None,
        },
        None => None,
    }
}

/// Parse exactly `k` sections from the front of the input.
pub open spec fn parse_sections(s: Seq<char>, k: int) -> Option<
    (Seq<(OmikujiSection, Seq<char>)>, Seq<char>),
>
    decreases k,
{
    if k <= 0 {
        Some((Seq::empty(), s))
    } else {
        match parse_section(s) {
            Some((sec, r)) => match parse_sections(r, k - 1) {
                Some((ss, r2)) => Some((seq![sec] + ss, r2)),
                None => None,
            },
            None => None,
        }
    }
}

/// Decode a whole draft: the header, each field in order, and nothing after.
pub open spec fn decode_spec(s: Seq<char>) -> Option<DraftView> {
    if s.len() < 2 || s[0] != 'v' || s[1] != '1' {
        None
    } else {
        match parse_opt_class(s.skip(2)) {
            Some((class, s2)) => match parse_opt_str(s2) {
                Some((description, s3)) => match parse_num(s3) {
                    Some((k, s4)) => match parse_sections(s4, k) {
                        Some((sections, s5)) => match parse_opt_str(s5) {
                            Some((photo, s6)) => {
                                if s6.len() == 0 {
                                    Some(DraftView { class, description, sections, photo })
                                } else {
                                    None
                                }
                            },
                            None => None,
                        },
                        None => None,
                    },
                    None => None,
                },
                None => None,
            },
            None => None,
        }
    }
}

/// Powers of ten.
pub open spec fn pow10(k: nat) -> int
    decreases k,
{
    if k == 0 {
        1
    } else {
        10 * pow10((k - 1) as nat)
    }
}

/// A digit's character is a digit character with that value, and is not a
/// terminator.
proof fn lemma_digit_char(d: int)
    requires
        0 <= d < 10,
    ensures
        is_digit(digit_char(d)),
        digit_val(digit_char(d)) == d,
        digit_char(d) != '.',
{
}

/// Powers of ten are positive.
proof fn lemma_pow10_pos(k: nat)
    ensures
        pow10(k) >= 1,
    decreases k,
{
    if k > 0 {
        lemma_pow10_pos((k - 1) as nat);
    }
}

/// Reading the digits of `n` after having already read `acc` leaves the
/// parser at the rest of the input with `acc` shifted past `n`'s digits.
proof fn lemma_parse_digits(n: int, acc: int, rest: Seq<char>, seen: bool)
    requires
        0 <= n,
        0 <= acc,
        acc * pow10(dec_of(n).len()) + n <= num_limit(),
    ensures
        parse_num_rec(dec_of(n) + rest, acc, seen) == parse_num_rec(
            rest,
            acc * pow10(dec_of(n).len()) + n,
            true,
        ),
    decreases n,
{
    assert(pow10(0) == 1);
    assert(pow10(1) == 10);
    if n < 10 {
        let s = dec_of(n) + rest;
        lemma_digit_char(n);
        assert(s[0] == digit_char(n));
        assert(s.skip(1) =~= rest);
        assert(acc * 10 + n <= num_limit());
    } else {
        let low = digit_char(n % 10);
        lemma_digit_char(n % 10);
        let rest1 = seq![low] + rest;
        assert(dec_of(n) + rest =~= dec_of(n / 10) + rest1);
        let l1 = dec_of(n / 10).len();
        assert(dec_of(n).len() == l1 + 1);
        assert(pow10(l1 + 1) == 10 * pow10(l1));
        lemma_pow10_pos(l1);
        lemma_fundamental_div_mod(n, 10);
        let mid = acc * pow10(l1) + n / 10;
        assert(mid * 10 + n % 10 == acc * pow10(l1 + 1) + n) by (nonlinear_arith)
            requires
                mid == acc * pow10(l1) + n / 10,
                pow10(l1 + 1) == 10 * pow10(l1),
                n == 10 * (n / 10) + n % 10,
        ;
        assert(acc * pow10(l1) >= 0) by (nonlinear_arith)
            requires
                acc >= 0,
                pow10(l1) >= 1,
        ;
        assert(mid * 10 + n % 10 <= num_limit());
        assert(mid <= mid * 10);
        lemma_parse_digits(n / 10, acc, rest1, seen);
        assert(parse_num_rec(dec_of(n) + rest, acc, seen) == parse_num_rec(rest1, mid, true));
        assert(parse_num_rec(rest1, mid, true) == parse_num_rec(rest, mid * 10 + n % 10, true))
            by {
            assert(rest1[0] == low);
            assert(rest1.skip(1) =~= rest);
            assert(mid * 10 + digit_val(low) <= num_limit());
        }
    }
}

/// A number written by `enc_num` reads back as itself, leaving the rest.
pub proof fn lemma_parse_enc_num(n: int, rest: Seq<char>)
    requires
        0 <= n <= num_limit(),
    ensures
        parse_num(enc_num(n) + rest) == Some((n, rest)),
{
    assert(enc_num(n) + rest =~= dec_of(n) + (seq!['.'] + rest));
    lemma_pow10_pos(dec_of(n).len());
    assert(0 * pow10(dec_of(n).len()) + n == n);
    lemma_parse_digits(n, 0, seq!['.'] + rest, false);
    let dot_rest = seq!['.'] + rest;
    assert(dot_rest[0] == '.');
    assert(dot_rest.skip(1) =~= rest);
}

/// A text written by `enc_str` reads back as itself, leaving the rest.
pub proof fn lemma_parse_enc_str(t: Seq<char>, rest: Seq<char>)
    requires
        t.len() <= num_limit(),
    ensures
        parse_str(enc_str(t) + rest) == Some((t, rest)),
{
    assert(enc_str(t) + rest =~= enc_num(t.len() as int) + (t + rest));
    lemma_parse_enc_num(t.len() as int, t + rest);
    assert((t + rest).take(t.len() as int) =~= t);
    assert((t + rest).skip(t.len() as int) =~= rest);
}

/// An optional text written by `enc_opt_str` reads back as itself.
pub proof fn lemma_parse_enc_opt_str(o: Option<Seq<char>>, rest: Seq<char>)
    requires
        o is Some ==> o.unwrap().len() <= num_limit(),
    ensures
        parse_opt_str(enc_opt_str(o) + rest) == Some((o, rest)),
{
    match o {
        None => {
            let s = enc_opt_str(o) + rest;
            assert(s[0] == 'N');
            assert(s.skip(1) =~= rest);
        },
        Some(t) => {
            let s = enc_opt_str(o) + rest;
            assert(s[0] == 'S');
            assert(s.skip(1) =~= enc_str(t) + rest);
            lemma_parse_enc_str(t, rest);
        },
    }
}

/// An optional class written by `enc_opt_class` reads back as itself.
pub proof fn lemma_parse_enc_opt_class(o: Option<OmikujiClass>, rest: Seq<char>)
    ensures
        parse_opt_class(enc_opt_class(o) + rest) == Some((o, rest)),
{
    match o {
        None => {
            let s = enc_opt_class(o) + rest;
            assert(s[0] == 'N');
            assert(s.skip(1) =~= rest);
        },
        Some(c) => {
            let s = enc_opt_class(o) + rest;
            assert(s[0] == 'S');
            assert(s.skip(1) =~= enc_num(class_index_spec(c)) + rest);
            lemma_parse_enc_num(class_index_spec(c), rest);
            crate::models::lemma_class_index_round_trip(c);
        },
    }
}

/// A section list written by `enc_sections` reads back as itself when its
/// own length is given as the count.
pub proof fn lemma_parse_enc_sections(ss: Seq<(OmikujiSection, Seq<char>)>, rest: Seq<char>)
    requires
        forall|i: int| 0 <= i < ss.len() ==> (#[trigger] ss[i]).1.len() <= num_limit(),
    ensures
        parse_sections(enc_sections(ss) + rest, ss.len() as int) == Some((ss, rest)),
    decreases ss.len(),
{
    if ss.len() == 0 {
        assert(enc_sections(ss) + rest =~= rest);
        assert(parse_sections(rest, 0) == Some((Seq::<(OmikujiSection, Seq<char>)>::empty(), rest)));
        assert(ss =~= Seq::<(OmikujiSection, Seq<char>)>::empty());
    } else {
        let head = ss.first();
        let tail = ss.drop_first();
        let s = enc_sections(ss) + rest;
        assert(s =~= enc_num(section_index_spec(head.0)) + (enc_str(head.1) + (enc_sections(tail)
            + rest)));
        lemma_parse_enc_num(section_index_spec(head.0), enc_str(head.1) + (enc_sections(tail) + rest));
        crate::models::lemma_section_index_round_trip(head.0);
        assert(head.1.len() <= num_limit()) by {
            assert(ss[0].1.len() <= num_limit());
        }
        lemma_parse_enc_str(head.1, enc_sections(tail) + rest);
        assert(parse_section(s) == Some((head, enc_sections(tail) + rest)));
        assert(forall|i: int|
            0 <= i < tail.len() ==> (#[trigger] tail[i]).1.len() <= num_limit()) by {
            assert(forall|i: int|
                0 <= i < tail.len() ==> tail[i] == ss[i + 1] && (#[trigger] ss[i + 1]).1.len()
                    <= num_limit());
        }
        lemma_parse_enc_sections(tail, rest);
        assert(seq![head] + tail =~= ss);
    }
}

/// Round trip: decoding the encoding of any draft gives back exactly that
/// draft, whatever is or is not yet filled in. The bounds only say that each
/// piece of text, and the number of sections, fits the wire's number limit,
/// which holds of every draft a machine can hold.
#[verifier::rlimit(50)]
pub proof fn lemma_encode_decode(d: DraftView)
    requires
        d.description is Some ==> d.description.unwrap().len() <= num_limit(),
        d.photo is Some ==> d.photo.unwrap().len() <= num_limit(),
        d.sections.len() <= num_limit(),
        forall|i: int| 0 <= i < d.sections.len() ==> (#[trigger] d.sections[i]).1.len()
            <= num_limit(),
    ensures
        decode_spec(encode_spec(d)) == Some(d),
{
    let s = encode_spec(d);
    let after_header = enc_opt_class(d.class) + (enc_opt_str(d.description) + (enc_num(
        d.sections.len() as int,
    ) + (enc_sections(d.sections) + enc_opt_str(d.photo))));
    assert(s.len() >= 2 && s[0] == 'v' && s[1] == '1');
    assert(s.skip(2) =~= after_header);
    lemma_parse_enc_opt_class(
        d.class,
        enc_opt_str(d.description) + (enc_num(d.sections.len() as int) + (enc_sections(d.sections)
            + enc_opt_str(d.photo))),
    );
    lemma_parse_enc_opt_str(
        d.description,
        enc_num(d.sections.len() as int) + (enc_sections(d.sections) + enc_opt_str(d.photo)),
    );
    lemma_parse_enc_num(
        d.sections.len() as int,
        enc_sections(d.sections) + enc_opt_str(d.photo),
    );
    lemma_parse_enc_sections(d.sections, enc_opt_str(d.photo));
    lemma_parse_enc_opt_str(d.photo, Seq::empty());
    assert(enc_opt_str(d.photo) + Seq::<char>::empty() =~= enc_opt_str(d.photo));
}

/// Appending one section extends its wire form at the end.
proof fn lemma_enc_sections_push(ss: Seq<(OmikujiSection, Seq<char>)>, x: (OmikujiSection, Seq<char>))
    ensures
        enc_sections(ss.push(x)) == enc_sections(ss) + enc_num(section_index_spec(x.0)) + enc_str(
            x.1,
        ),
    decreases ss.len(),
{
    let piece = enc_num(section_index_spec(x.0)) + enc_str(x.1);
    if ss.len() == 0 {
        assert(ss.push(x).first() == x);
        assert(ss.push(x).drop_first() =~= Seq::<(OmikujiSection, Seq<char>)>::empty());
        assert(enc_sections(Seq::<(OmikujiSection, Seq<char>)>::empty()) == Seq::<char>::empty());
        assert(enc_sections(ss.push(x)) =~= enc_sections(ss) + piece);
    } else {
        assert(ss.push(x).first() == ss.first());
        assert(ss.push(x).drop_first() =~= ss.drop_first().push(x));
        lemma_enc_sections_push(ss.drop_first(), x);
        assert(enc_sections(ss.push(x)) =~= enc_sections(ss) + piece);
    }
}

/// The character of one decimal digit.
fn digit_str(d: u64) -> (r: &'static str)
    requires
        d < 10,
    ensures
        r@ == seq![digit_char(d as int)],
{
    proof {
        reveal_strlit("0");
        reveal_strlit("1");
        reveal_strlit("2");
        reveal_strlit("3");
        reveal_strlit("4");
        reveal_strlit("5");
        reveal_strlit("6");
        reveal_strlit("7");
        reveal_strlit("8");
        reveal_strlit("9");
    }
    let r = if d == 0 {
        "0"
    } else if d == 1 {
        "1"
    } else if d == 2 {
        "2"
    } else if d == 3 {
        "3"
    } else if d == 4 {
        "4"
    } else if d == 5 {
        "5"
    } else if d == 6 {
        "6"
    } else if d == 7 {
        "7"
    } else if d == 8 {
        "8"
    } else {
        "9"
    };
    proof {
        assert(r@ =~= seq![digit_char(d as int)]);
    }
    r
}

/// Write the decimal digits of `n`.
fn push_dec(out: &mut String, n: u64)
    ensures
        final(out)@ == old(out)@ + dec_of(n as int),
    decreases n,
{
    if n < 10 {
        out.append(digit_str(n));
        proof {
            assert(final(out)@ =~= old(out)@ + dec_of(n as int));
        }
    } else {
        push_dec(out, n / 10);
        out.append(digit_str(n % 10));
        proof {
            assert(final(out)@ =~= old(out)@ + dec_of(n as int));
        }
    }
}

/// Write a number in its wire form: digits closed by `.`.
fn push_num(out: &mut String, n: u64)
    ensures
        final(out)@ == old(out)@ + enc_num(n as int),
{
    push_dec(out, n);
    out.append(".");
    proof {
        reveal_strlit(".");
        assert(final(out)@ =~= old(out)@ + enc_num(n as int));
    }
}

/// Write a text in its wire form: length, then characters.
fn push_text(out: &mut String, t: &str)
    ensures
        final(out)@ == old(out)@ + enc_str(t@),
{
    let n = t.unicode_len();
    push_num(out, n as u64);
    out.append(t);
    proof {
        assert(final(out)@ =~= old(out)@ + enc_str(t@));
    }
}

/// Serialize a draft into its stable wire form.
pub fn encode(m: &OmikujiMessage) -> (r: String)
    ensures
        r@ == encode_spec(m@),
{
    proof {
        reveal_strlit("v1");
        reveal_strlit("S");
        reveal_strlit("N");
    }
    let mut out = String::new();
    out.append("v1");
    proof {
        assert(out@ =~= seq!['v', '1']);
    }
    match &m.class {
        Some(c) => {
            out.append("S");
            push_num(&mut out, c.index());
            proof {
                assert(out@ =~= seq!['v', '1'] + enc_opt_class(m@.class));
            }
        },
        None => {
            out.append("N");
            proof {
                assert(out@ =~= seq!['v', '1'] + enc_opt_class(m@.class));
            }
        },
    }
    match &m.description {
        Some(t) => {
            out.append("S");
            push_text(&mut out, t.as_str());
        },
        None => {
            out.append("N");
        },
    }
    proof {
        assert(out@ =~= seq!['v', '1'] + enc_opt_class(m@.class) + enc_opt_str(m@.description));
    }
    push_num(&mut out, m.sections.len() as u64);
    let ghost head = out@;
    proof {
        assert(head == seq!['v', '1'] + enc_opt_class(m@.class) + enc_opt_str(m@.description)
            + enc_num(m@.sections.len() as int));
        assert(m@.sections.take(0) =~= Seq::<(OmikujiSection, Seq<char>)>::empty());
    }
    let mut i: usize = 0;
    while i < m.sections.len()
        invariant
            i <= m.sections.len(),
            m@.sections.len() == m.sections@.len(),
            out@ == head + enc_sections(m@.sections.take(i as int)),
        decreases m.sections.len() - i,
    {
        let (kind, body) = &m.sections[i];
        push_num(&mut out, kind.index());
        push_text(&mut out, body.as_str());
        proof {
            let taken = m@.sections.take(i as int);
            let next = m@.sections.take(i + 1 as int);
            assert(next =~= taken.push(m@.sections[i as int]));
            lemma_enc_sections_push(taken, m@.sections[i as int]);
            assert(m@.sections[i as int].0 == kind && m@.sections[i as int].1 == body@);
            assert(out@ =~= head + enc_sections(next));
        }
        i = i + 1;
    }
    proof {
        assert(m@.sections.take(m.sections@.len() as int) =~= m@.sections);
    }
    match &m.photo {
        Some(p) => {
            out.append("S");
            push_text(&mut out, p.as_str());
        },
        None => {
            out.append("N");
        },
    }
    proof {
        assert(out@ =~= encode_spec(m@));
    }
    out
}

/// Read a number from the front of the input.
fn p_num<'a>(s: &'a str) -> (r: Option<(u64, &'a str)>)
    ensures
        match r {
            Some(p) => parse_num(s@) == Some((p.0 as int, p.1@)),
            None => parse_num(s@) is None,
        },
{
    let len = s.unicode_len();
    let mut i: usize = 0;
    let mut acc: u64 = 0;
    let mut seen = false;
    proof {
        assert(s@.skip(0) =~= s@);
    }
    loop
        invariant
            i <= len,
            len == s@.len(),
            parse_num(s@) == parse_num_rec(s@.skip(i as int), acc as int, seen),
        decreases len - i,
    {
        if i == len {
            proof {
                assert(s@.skip(i as int) =~= Seq::<char>::empty());
            }
            return None;
        }
        let c = s.get_char(i);
        proof {
            assert(s@.skip(i as int)[0] == s@[i as int]);
        }
        if c == '.' {
            if seen {
                let rest = s.substring_char(i + 1, len);
                proof {
                    assert(rest@ =~= s@.skip(i as int).skip(1));
                }
                return Some((acc, rest));
            } else {
                return None;
            }
        }
        let d: u64 = match c {
            '0' => 0,
            '1' => 1,
            '2' => 2,
            '3' => 3,
            '4' => 4,
            '5' => 5,
            '6' => 6,
            '7' => 7,
            '8' => 8,
            '9' => 9,
            _ => {
                return None;
            },
        };
        let acc2 = match acc.checked_mul(10) {
            Some(v) => match v.checked_add(d) {
                Some(w) => w,
                None => {
                    return None;
                },
            },
            None => {
                return None;
            },
        };
        proof {
            assert(s@.skip(i as int).skip(1) =~= s@.skip(i + 1 as int));
        }
        acc = acc2;
        seen = true;
        i = i + 1;
    }
}

/// Read a text from the front of the input: its length, then that many
/// characters.
fn p_text<'a>(s: &'a str) -> (r: Option<(String, &'a str)>)
    ensures
        match r {
            Some(p) => parse_str(s@) == Some((p.0@, p.1@)),
            None => parse_str(s@) is None,
        },
{
    match p_num(s) {
        Some((n, r1)) => {
            let rlen = r1.unicode_len();
            if n <= rlen as u64 {
                let t = r1.substring_char(0, n as usize);
                let rest = r1.substring_char(n as usize, rlen);
                proof {
                    assert(t@ =~= r1@.take(n as int));
                    assert(rest@ =~= r1@.skip(n as int));
                }
                Some((String::from_str(t), rest))
            } else {
                None
            }
        },
        None => None,
    }
}

/// Read an optional text from the front of the input.
fn p_opt_text<'a>(s: &'a str) -> (r: Option<(Option<String>, &'a str)>)
    ensures
        match r {
            Some(p) => parse_opt_str(s@) == Some((crate::models::opt_text_view(p.0), p.1@)),
            None => parse_opt_str(s@) is None,
        },
{
    let len = s.unicode_len();
    if len == 0 {
        return None;
    }
    let c = s.get_char(0);
    if c == 'N' {
        let rest = s.substring_char(1, len);
        proof {
            assert(rest@ =~= s@.skip(1));
        }
        Some((None, rest))
    } else if c == 'S' {
        let tail = s.substring_char(1, len);
        proof {
            assert(tail@ =~= s@.skip(1));
        }
        match p_text(tail) {
            Some((t, rest)) => Some((Some(t), rest)),
            None => None,
        }
    } else {
        None
    }
}

/// Read an optional class from the front of the input.
fn p_opt_class<'a>(s: &'a str) -> (r: Option<(Option<OmikujiClass>, &'a str)>)
    ensures
        match r {
            Some(p) => parse_opt_class(s@) == Some((p.0, p.1@)),
            None => parse_opt_class(s@) is None,
        },
{
    let len = s.unicode_len();
    if len == 0 {
        return None;
    }
    let c = s.get_char(0);
    if c == 'N' {
        let rest = s.substring_char(1, len);
        proof {
            assert(rest@ =~= s@.skip(1));
        }
        Some((None, rest))
    } else if c == 'S' {
        let tail = s.substring_char(1, len);
        proof {
            assert(tail@ =~= s@.skip(1));
        }
        match p_num(tail) {
            Some((n, rest)) => match OmikujiClass::from_index(n) {
                Some(cl) => Some((Some(cl), rest)),
                None => None,
            },
            None => None,
        }
    } else {
        None
    }
}

/// Read exactly `k` sections from the front of the input.
fn p_sections<'a>(s: &'a str, k: u64) -> (r: Option<(Vec<(OmikujiSection, String)>, &'a str)>)
    ensures
        match r {
            Some(p) => parse_sections(s@, k as int) == Some(
                (crate::models::sections_view(p.0@), p.1@),
            ),
            None => parse_sections(s@, k as int) is None,
        },
{
    let mut out: Vec<(OmikujiSection, String)> = Vec::new();
    let mut cur: &str = s;
    let mut rem: u64 = k;
    proof {
        assert(crate::models::sections_view(out@) =~= Seq::<(OmikujiSection, Seq<char>)>::empty());
    }
    loop
        invariant
            rem <= k,
            match parse_sections(cur@, rem as int) {
                Some(p) => parse_sections(s@, k as int) == Some(
                    (crate::models::sections_view(out@) + p.0, p.1),
                ),
                None => parse_sections(s@, k as int) is None,
            },
        decreases rem,
    {
        if rem == 0 {
            proof {
                assert(crate::models::sections_view(out@) + Seq::<
                    (OmikujiSection, Seq<char>),
                >::empty() =~= crate::models::sections_view(out@));
            }
            return Some((out, cur));
        }
        let idx = match p_num(cur) {
            Some(p) => p,
            None => {
                return None;
            },
        };
        let kind = match OmikujiSection::from_index(idx.0) {
            Some(kind) => kind,
            None => {
                return None;
            },
        };
        let body = match p_text(idx.1) {
            Some(p) => p,
            None => {
                return None;
            },
        };
        proof {
            assert(parse_section(cur@) == Some(((kind, body.0@), body.1@)));
        }
        let ghost old_out = out@;
        out.push((kind, body.0));
        proof {
            let sec = (kind, body.1@);
            assert(crate::models::sections_view(out@) =~= crate::models::sections_view(
                old_out,
            ).push((out@.last().0, out@.last().1@)));
            if parse_sections(body.1@, rem - 1) is Some {
                let p = parse_sections(body.1@, rem - 1).unwrap();
                assert(crate::models::sections_view(old_out) + (seq![(out@.last().0, out@.last().1@)]
                    + p.0) =~= crate::models::sections_view(out@) + p.0);
            }
        }
        cur = body.1;
        rem = rem - 1;
    }
}

/// Deserialize a draft from its wire form; `None` on anything `encode` does
/// not produce.
pub fn decode(s: &str) -> (r: Option<OmikujiMessage>)
    ensures
        match r {
            Some(m) => decode_spec(s@) == Some(m@),
            None => decode_spec(s@) is None,
        },
{
    let len = s.unicode_len();
    if len < 2 {
        return None;
    }
    if s.get_char(0) != 'v' || s.get_char(1) != '1' {
        return None;
    }
    let s1 = s.substring_char(2, len);
    proof {
        assert(s1@ =~= s@.skip(2));
    }
    let (class, s2) = match p_opt_class(s1) {
        Some(p) => p,
        None => {
            return None;
        },
    };
    let (description, s3) = match p_opt_text(s2) {
        Some(p) => p,
        None => {
            return None;
        },
    };
    let (k, s4) = match p_num(s3) {
        Some(p) => p,
        None => {
            return None;
        },
    };
    let (sections, s5) = match p_sections(s4, k) {
        Some(p) => p,
        None => {
            return None;
        },
    };
    let (photo, s6) = match p_opt_text(s5) {
        Some(p) => p,
        None => {
            return None;
        },
    };
    if s6.unicode_len() == 0 {
        let m = OmikujiMessage { class, description, sections, photo };
        proof {
            assert(s6@ =~= Seq::<char>::empty());
            assert(decode_spec(s@) == Some(m@));
        }
        Some(m)
    } else {
        None
    }
}

} // verus!
