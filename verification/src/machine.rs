//! The conversational submission state machine, and the action handlers
//! around it: drafting (start, class, description, sections, photo, save),
//! drawing, and voting. Handlers compute the next session and repository
//! state and the response to hand back; the transport that delivers the
//! response lives outside this crate.

use vstd::prelude::*;

use crate::codec::decode;
use crate::codec::decode_spec;
use crate::codec::digit_val;
use crate::codec::encode;
use crate::codec::encode_spec;
use crate::codec::is_digit;
use crate::models::DraftView;
use crate::models::NewOmikuji;
use crate::models::Omikuji;
use crate::models::OmikujiClass;
use crate::models::OmikujiMessage;
use crate::models::OmikujiSection;
use crate::models::class_from_token_spec;
use crate::models::commit_ready;
use crate::models::empty_draft;
use crate::models::opt_text_view;
use crate::repository::OmikujiRepository;
use crate::repository::eligible_slips;
use crate::repository::voted_seq;
use crate::store::SessionStore;
use crate::text::str_eq;

verus! {

/// What the core hands back for the transport to render: a fixed reply, a
/// reply carrying data, or an option-list prompt.
#[derive(Debug, PartialEq)]
pub enum Response {
    /// The greeting with the top-level menu (create or draw).
    MainMenu,
    /// The draft an identity is working on, rendered back to its author.
    Current { draft: OmikujiMessage },
    /// There is no draft to show.
    NoCurrent,
    /// The work-in-progress draft was dropped (or there was none).
    Cancelled,
    /// What this service is.
    About,
    /// The raw draft, for its author to inspect.
    DebugDump { draft: OmikujiMessage },
    /// No draft to inspect.
    DebugEmpty,
    /// A `/`-command that is not known.
    CommandNotRecognized { command: String },
    /// The default reply to unhandled text: how to begin.
    Welcome,
    /// A photo message without image content.
    MalformedImage,
    /// A message of a kind the core does not handle.
    UnsupportedMessage,
    /// A button callback with no body.
    EmptyCallback,
    /// A button callback whose command is not known.
    CallbackNotRecognized { command: String },
    /// "start new" while a draft exists: finish or cancel it first.
    MustCompletePrevious,
    /// The draft was created; pick one of the twelve classes.
    ClassOptions,
    /// A class callback without a draft.
    NoDraftForClass,
    /// The class is already set and is set at most once.
    ClassAlreadySet,
    /// The class was set; now write the description.
    AskDescription,
    /// The description was captured; now pick the first section.
    SectionOptions,
    /// A section callback without a draft.
    NoDraftForSection,
    /// A section callback before the class is chosen.
    NeedClassFirst,
    /// A section callback before the description is written.
    NeedDescriptionFirst,
    /// A section callback while the previous section still awaits its text.
    FinishPreviousSection,
    /// The section was appended; now write its text.
    AskSectionText { kind: OmikujiSection },
    /// A prompt to pick a further section or save what is done.
    SectionOrSave,
    /// Freeform text while no section awaits text: pick a section first.
    SelectSectionFirst,
    /// An option token that parses to nothing valid.
    MalformedRequest,
    /// The save affordance: attach a photo, or save without one.
    AskPhoto,
    /// The draft was committed as a slip and the session ended.
    Saved,
    /// Save refused: the draft has no completed section.
    IncompleteStrip,
    /// A draw found no eligible slip.
    LibraryEmpty,
    /// A drawn slip: its id (for the vote buttons) and its decoded message.
    Drawn { id: u32, message: OmikujiMessage },
    /// A drawn slip whose stored message does not decode.
    CorruptSlip,
    /// The vote was counted.
    Voted { is_upvote: bool },
    /// A vote against a slip id that does not exist.
    VoteNotFound,
}

/// What "start new" leaves behind: a rejection if a draft exists, else a
/// fresh empty draft for this identity and the class options.
pub open spec fn new_post(
    o: Map<i64, OmikujiMessage>,
    n: Map<i64, OmikujiMessage>,
    id: i64,
    r: Response,
) -> bool {
    if o.contains_key(id) {
        r == Response::MustCompletePrevious && n == o
    } else {
        r == Response::ClassOptions && n.contains_key(id) && n[id]@ == empty_draft() && n.remove(id)
            == o
    }
}

/// What the status query answers: the draft, rendered, or that none exists;
/// it never changes anything.
pub open spec fn current_post(m: Map<i64, OmikujiMessage>, id: i64, r: Response) -> bool {
    if m.contains_key(id) {
        r matches Response::Current { draft } && draft@ == m[id]@
    } else {
        r == Response::NoCurrent
    }
}

/// What the debug query answers.
pub open spec fn debug_post(m: Map<i64, OmikujiMessage>, id: i64, r: Response) -> bool {
    if m.contains_key(id) {
        r matches Response::DebugDump { draft } && draft@ == m[id]@
    } else {
        r == Response::DebugEmpty
    }
}

/// What cancelling leaves behind: the identity's draft is gone (a no-op if
/// there was none), reported as success either way.
pub open spec fn cancel_post(
    o: Map<i64, OmikujiMessage>,
    n: Map<i64, OmikujiMessage>,
    id: i64,
    r: Response,
) -> bool {
    n == o.remove(id) && r == Response::Cancelled
}

/// What choosing a class leaves behind: rejected without a draft, when the
/// class is already set, or on a token that is unknown or the unset
/// sentinel; otherwise the class is set, once, and nothing else moves.
pub open spec fn class_post(
    o: Map<i64, OmikujiMessage>,
    n: Map<i64, OmikujiMessage>,
    id: i64,
    payload: Seq<char>,
    r: Response,
) -> bool {
    if !o.contains_key(id) {
        r == Response::NoDraftForClass && n == o
    } else if o[id]@.class is Some {
        r == Response::ClassAlreadySet && n == o
    } else {
        match class_from_token_spec(payload) {
            Some(c) => {
                if c == OmikujiClass::Unknown {
                    r == Response::MalformedRequest && n == o
                } else {
                    r == Response::AskDescription && n.contains_key(id) && n[id]@ == DraftView {
                        class: Some(c),
                        description: o[id]@.description,
                        sections: o[id]@.sections,
                        photo: o[id]@.photo,
                    } && n.remove(id) == o.remove(id)
                }
            },
            None => r == Response::MalformedRequest && n == o,
        }
    }
}

/// "start new": create a draft for this identity, unless one exists.
pub fn new(store: &mut SessionStore, id: i64) -> (r: Response)
    ensures
        new_post(old(store)@, final(store)@, id, r),
        old(store).wf() ==> final(store).wf(),
{
    if store.contains(id) {
        return Response::MustCompletePrevious;
    }
    let _ = store.create(id);
    Response::ClassOptions
}

/// The greeting: reset to the top-level menu.
pub fn start() -> (r: Response)
    ensures
        r == Response::MainMenu,
{
    Response::MainMenu
}

/// What this service is.
pub fn about() -> (r: Response)
    ensures
        r == Response::About,
{
    Response::About
}

/// The status query: show the draft without touching it.
pub fn current(store: &SessionStore, id: i64) -> (r: Response)
    ensures
        current_post(store@, id, r),
{
    match store.read(id) {
        Some(draft) => Response::Current { draft: draft.duplicate() },
        None => Response::NoCurrent,
    }
}

/// The debug query: show the raw draft without touching it.
pub fn debug(store: &SessionStore, id: i64) -> (r: Response)
    ensures
        debug_post(store@, id, r),
{
    match store.read(id) {
        Some(draft) => Response::DebugDump { draft: draft.duplicate() },
        None => Response::DebugEmpty,
    }
}

/// Cancel: drop the draft unconditionally and report success.
pub fn cancel(store: &mut SessionStore, id: i64) -> (r: Response)
    ensures
        cancel_post(old(store)@, final(store)@, id, r),
        old(store).wf() ==> final(store).wf(),
{
    store.delete(id);
    Response::Cancelled
}

/// Choose the class of the draft, once.
pub fn class(store: &mut SessionStore, id: i64, payload: &str) -> (r: Response)
    ensures
        class_post(old(store)@, final(store)@, id, payload@, r),
        old(store).wf() ==> final(store).wf(),
{
    let has_class = match store.read(id) {
        None => {
            return Response::NoDraftForClass;
        },
        Some(draft) => draft.class.is_some(),
    };
    if has_class {
        return Response::ClassAlreadySet;
    }
    match OmikujiClass::from_token(payload) {
        Some(OmikujiClass::Unknown) => Response::MalformedRequest,
        Some(c) => {
            let mut draft = match store.take(id) {
                Some(d) => d,
                None => {
                    return Response::MalformedRequest;
                },
            };
            draft.class = Some(c);
            store.put(id, draft);
            proof {
                assert(final(store)@.remove(id) =~= old(store)@.remove(id));
            }
            Response::AskDescription
        },
        None => Response::MalformedRequest,
    }
}

/// What capturing a description leaves behind: freeform text becomes the
/// description, verbatim and only once, when the class is chosen and the
/// description still missing; any other draft state leaves the text
/// uncaptured (`None`) and everything unchanged.
pub open spec fn update_description_post(
    o: Map<i64, OmikujiMessage>,
    n: Map<i64, OmikujiMessage>,
    id: i64,
    text: Seq<char>,
    r: Option<Response>,
) -> bool {
    if o.contains_key(id) && o[id]@.class is Some && o[id]@.description is None {
        r == Some(Response::SectionOptions) && n.contains_key(id) && n[id]@ == DraftView {
            class: o[id]@.class,
            description: Some(text),
            sections: o[id]@.sections,
            photo: o[id]@.photo,
        } && n.remove(id) == o.remove(id)
    } else {
        r is None && n == o
    }
}

/// What filling a section's text leaves behind: freeform text fills the
/// last appended section exactly when that section still awaits its text;
/// with no section appended yet the author is told to pick one first; text
/// at any other point is left uncaptured (`None`) and nothing changes.
pub open spec fn update_section_post(
    o: Map<i64, OmikujiMessage>,
    n: Map<i64, OmikujiMessage>,
    id: i64,
    text: Seq<char>,
    r: Option<Response>,
) -> bool {
    if !o.contains_key(id) {
        r is None && n == o
    } else if o[id]@.sections.len() == 0 {
        r == Some(Response::SelectSectionFirst) && n == o
    } else if o[id]@.sections.last().1.len() > 0 {
        r is None && n == o
    } else {
        r == Some(Response::SectionOrSave) && n.contains_key(id) && n[id]@ == DraftView {
            class: o[id]@.class,
            description: o[id]@.description,
            sections: o[id]@.sections.update(
                o[id]@.sections.len() - 1,
                (o[id]@.sections.last().0, text),
            ),
            photo: o[id]@.photo,
        } && n.remove(id) == o.remove(id)
    }
}

/// What choosing a section leaves behind: rejected without a draft, before
/// the class or description, while the previous section awaits its text, or
/// on an unknown token; otherwise the section is appended with empty text,
/// awaiting it.
pub open spec fn section_post(
    o: Map<i64, OmikujiMessage>,
    n: Map<i64, OmikujiMessage>,
    id: i64,
    payload: Seq<char>,
    r: Response,
) -> bool {
    if !o.contains_key(id) {
        r == Response::NoDraftForSection && n == o
    } else if o[id]@.class is None {
        r == Response::NeedClassFirst && n == o
    } else if o[id]@.description is None {
        r == Response::NeedDescriptionFirst && n == o
    } else if o[id]@.sections.len() > 0 && o[id]@.sections.last().1.len() == 0 {
        r == Response::FinishPreviousSection && n == o
    } else {
        match crate::models::section_from_token_spec(payload) {
            Some(k) => r == (Response::AskSectionText { kind: k }) && n.contains_key(id)
                && n[id]@ == DraftView {
                class: o[id]@.class,
                description: o[id]@.description,
                sections: o[id]@.sections.push((k, Seq::empty())),
                photo: o[id]@.photo,
            } && n.remove(id) == o.remove(id),
            None => r == Response::MalformedRequest && n == o,
        }
    }
}

/// What a freeform text finds the draft's sections in.
enum Pending {
    NoDraft,
    NoSections,
    LastFilled,
    LastOpen,
}

/// What a section choice finds the draft in.
enum Gate {
    NoDraft,
    NoClass,
    NoDescription,
    PreviousOpen,
    Ready,
}

/// Whether a text is empty, judged on its characters.
fn text_is_empty(s: &str) -> (r: bool)
    ensures
        r == (s@.len() == 0),
{
    s.unicode_len() == 0
}

/// Capture freeform text as the draft's description, if that is what the
/// draft awaits.
pub fn update_description(store: &mut SessionStore, id: i64, text: &str) -> (r: Option<Response>)
    ensures
        update_description_post(old(store)@, final(store)@, id, text@, r),
        old(store).wf() ==> final(store).wf(),
{
    let wants_description = match store.read(id) {
        None => false,
        Some(draft) => draft.class.is_some() && draft.description.is_none(),
    };
    if !wants_description {
        return None;
    }
    let mut draft = match store.take(id) {
        Some(d) => d,
        None => {
            return None;
        },
    };
    draft.description = Some(String::from_str(text));
    store.put(id, draft);
    proof {
        assert(final(store)@.remove(id) =~= old(store)@.remove(id));
    }
    Some(Response::SectionOptions)
}

/// Capture freeform text as the last section's text, if that is what the
/// draft awaits.
pub fn update_section(store: &mut SessionStore, id: i64, text: &str) -> (r: Option<Response>)
    ensures
        update_section_post(old(store)@, final(store)@, id, text@, r),
        old(store).wf() ==> final(store).wf(),
{
    let pending = match store.read(id) {
        None => Pending::NoDraft,
        Some(draft) => {
            if draft.sections.len() == 0 {
                Pending::NoSections
            } else {
                let (_, last_text) = &draft.sections[draft.sections.len() - 1];
                if text_is_empty(last_text.as_str()) {
                    Pending::LastOpen
                } else {
                    Pending::LastFilled
                }
            }
        },
    };
    match pending {
        Pending::NoDraft => None,
        Pending::NoSections => Some(Response::SelectSectionFirst),
        Pending::LastFilled => None,
        Pending::LastOpen => {
            let mut draft = match store.take(id) {
                Some(d) => d,
                None => {
                    return None;
                },
            };
            let j = draft.sections.len() - 1;
            let kind = draft.sections[j].0;
            draft.sections[j] = (kind, String::from_str(text));
            proof {
                let d0 = old(store)@[id]@;
                assert(draft@.sections =~= d0.sections.update(
                    d0.sections.len() - 1,
                    (d0.sections.last().0, text@),
                ));
                assert(draft@ =~= DraftView {
                    class: d0.class,
                    description: d0.description,
                    sections: d0.sections.update(
                        d0.sections.len() - 1,
                        (d0.sections.last().0, text@),
                    ),
                    photo: d0.photo,
                });
                if old(store).wf() {
                    assert(crate::models::draft_inv(d0));
                    assert(crate::models::draft_inv(draft@));
                }
            }
            store.put(id, draft);
            proof {
                assert(final(store)@.remove(id) =~= old(store)@.remove(id));
            }
            Some(Response::SectionOrSave)
        },
    }
}

/// Append a chosen section to the draft, with its text still to come.
pub fn section(store: &mut SessionStore, id: i64, payload: &str) -> (r: Response)
    ensures
        section_post(old(store)@, final(store)@, id, payload@, r),
        old(store).wf() ==> final(store).wf(),
{
    let gate = match store.read(id) {
        None => Gate::NoDraft,
        Some(draft) => {
            if draft.class.is_none() {
                Gate::NoClass
            } else if draft.description.is_none() {
                Gate::NoDescription
            } else if draft.sections.len() > 0 {
                let (_, last_text) = &draft.sections[draft.sections.len() - 1];
                if text_is_empty(last_text.as_str()) {
                    Gate::PreviousOpen
                } else {
                    Gate::Ready
                }
            } else {
                Gate::Ready
            }
        },
    };
    match gate {
        Gate::NoDraft => Response::NoDraftForSection,
        Gate::NoClass => Response::NeedClassFirst,
        Gate::NoDescription => Response::NeedDescriptionFirst,
        Gate::PreviousOpen => Response::FinishPreviousSection,
        Gate::Ready => {
            match OmikujiSection::from_token(payload) {
                Some(kind) => {
                    let mut draft = match store.take(id) {
                        Some(d) => d,
                        None => {
                            return Response::MalformedRequest;
                        },
                    };
                    draft.sections.push((kind, String::new()));
                    proof {
                        let d0 = old(store)@[id]@;
                        assert(draft@.sections =~= d0.sections.push((kind, Seq::<char>::empty())));
                        assert(draft@ =~= DraftView {
                            class: d0.class,
                            description: d0.description,
                            sections: d0.sections.push((kind, Seq::<char>::empty())),
                            photo: d0.photo,
                        });
                        if old(store).wf() {
                            assert(crate::models::draft_inv(d0));
                            assert forall|i: int| 0 <= i < draft@.sections.len() - 1 implies (
                            #[trigger] draft@.sections[i]).1.len() > 0 by {
                                if i < d0.sections.len() - 1 {
                                    assert(d0.sections[i].1.len() > 0);
                                } else {
                                    assert(draft@.sections[i] == d0.sections.last());
                                }
                            }
                            assert(crate::models::draft_inv(draft@));
                        }
                    }
                    store.put(id, draft);
                    proof {
                        assert(final(store)@.remove(id) =~= old(store)@.remove(id));
                    }
                    Response::AskSectionText { kind }
                },
                None => Response::MalformedRequest,
            }
        },
    }
}

/// The save affordance: ask about a photo; nothing changes yet.
pub fn ask_photo() -> (r: Response)
    ensures
        r == Response::AskPhoto,
{
    Response::AskPhoto
}

/// The draft as it is committed: what the author wrote, with the photo
/// chosen at the commit step attached.
pub open spec fn committed_draft(d: DraftView, photo: Option<String>) -> DraftView {
    DraftView {
        class: d.class,
        description: d.description,
        sections: d.sections,
        photo: opt_text_view(photo),
    }
}

/// What saving leaves behind. A commit happens exactly when a draft exists
/// and its last section's text is non-empty: then, all or nothing, one slip
/// is appended — fresh id, score zero, this author, the chosen photo, and
/// the draft's stable encoding as its message — and the session ends. In
/// every other case the reply is a rejection and neither store moves.
pub open spec fn save_post(
    o_map: Map<i64, OmikujiMessage>,
    n_map: Map<i64, OmikujiMessage>,
    o_rep: Seq<Omikuji>,
    n_rep: Seq<Omikuji>,
    id: i64,
    author_name: String,
    photo: Option<String>,
    now: i64,
    r: Response,
) -> bool {
    if o_map.contains_key(id) && commit_ready(o_map[id]@) {
        &&& r == Response::Saved
        &&& n_map == o_map.remove(id)
        &&& n_rep.len() == o_rep.len() + 1
        &&& n_rep == o_rep.push(n_rep.last())
        &&& n_rep.last().id as int == o_rep.len() + 1
        &&& n_rep.last().vote_count == 0
        &&& n_rep.last().tg_id == id
        &&& n_rep.last().tg_name == author_name
        &&& n_rep.last().photo == photo
        &&& n_rep.last().message@ == encode_spec(committed_draft(o_map[id]@, photo))
        &&& n_rep.last().created_at == now
        &&& n_rep.last().updated_at == now
    } else {
        r == Response::IncompleteStrip && n_map == o_map && n_rep == o_rep
    }
}

/// Commit the draft as a slip, with the photo decided at this step; refuse
/// unless the single commit gate — a last section with text — is open.
pub fn save(
    store: &mut SessionStore,
    repo: &mut OmikujiRepository,
    id: i64,
    author_name: String,
    photo: Option<String>,
    now: i64,
) -> (r: Response)
    requires
        old(store).wf(),
        old(repo).wf(),
        old(repo)@.len() < u32::MAX as int,
    ensures
        final(store).wf(),
        final(repo).wf(),
        save_post(
            old(store)@,
            final(store)@,
            old(repo)@,
            final(repo)@,
            id,
            author_name,
            photo,
            now,
            r,
        ),
{
    let ready = match store.read(id) {
        None => false,
        Some(draft) => {
            if draft.sections.len() == 0 {
                false
            } else {
                let (_, last_text) = &draft.sections[draft.sections.len() - 1];
                !text_is_empty(last_text.as_str())
            }
        },
    };
    if !ready {
        return Response::IncompleteStrip;
    }
    let mut draft = match store.take(id) {
        Some(d) => d,
        None => {
            return Response::IncompleteStrip;
        },
    };
    draft.photo = match &photo {
        Some(p) => Some(p.clone()),
        None => None,
    };
    proof {
        assert(draft@ =~= committed_draft(old(store)@[id]@, photo));
    }
    let message = encode(&draft);
    let new_slip = NewOmikuji { message, tg_id: id, tg_name: author_name };
    let _ = repo.create(new_slip, photo, now);
    Response::Saved
}

/// The value of an all-digits id, read left to right onto `acc`; `None` on
/// a non-digit or a value beyond `u32`.
pub open spec fn digits_value_rec(s: Seq<char>, acc: int) -> Option<int>
    decreases s.len(),
{
    if s.len() == 0 {
        Some(acc)
    } else if !is_digit(s[0]) {
        None
    } else if acc * 10 + digit_val(s[0]) > u32::MAX as int {
        None
    } else {
        digits_value_rec(s.skip(1), acc * 10 + digit_val(s[0]))
    }
}

/// The value of a non-empty, all-digits decimal id that fits `u32`.
pub open spec fn digits_value(s: Seq<char>) -> Option<int> {
    if s.len() == 0 {
        None
    } else {
        digits_value_rec(s, 0)
    }
}

/// The vote payload grammar: a sign, `+` or `-`, then a decimal id; any
/// other form is malformed.
pub open spec fn vote_payload_spec(s: Seq<char>) -> Option<(bool, u32)> {
    if s.len() < 2 {
        None
    } else if s[0] != '+' && s[0] != '-' {
        None
    } else {
        match digits_value(s.skip(1)) {
            Some(v) => Some((s[0] == '+', v as u32)),
            None => None,
        }
    }
}

/// Parse a vote payload; total, `None` on anything outside the grammar.
pub fn parse_vote_payload(s: &str) -> (r: Option<(bool, u32)>)
    ensures
        r == vote_payload_spec(s@),
{
    let len = s.unicode_len();
    if len < 2 {
        return None;
    }
    let sign = s.get_char(0);
    if sign != '+' && sign != '-' {
        return None;
    }
    let is_up = sign == '+';
    let mut acc: u32 = 0;
    let mut i: usize = 1;
    proof {
        assert(s@.skip(1).len() > 0);
        assert(digits_value(s@.skip(1)) == digits_value_rec(s@.skip(1), 0));
    }
    while i < len
        invariant
            1 <= i <= len,
            len == s@.len(),
            len >= 2,
            digits_value(s@.skip(1)) == digits_value_rec(s@.skip(i as int), acc as int),
        decreases len - i,
    {
        let c = s.get_char(i);
        proof {
            assert(s@.skip(i as int)[0] == s@[i as int]);
        }
        let d: u32 = match c {
            '0' => 0,
            '1' => 1,
            '2' => 2,
            '3' => 3,
            '4' => 4,
            '5' => 5,
            '6' => 6,
            '7' => 7,
            '8' => 8,
            '9' => 9,
            _ => {
                return None;
            },
        };
        let acc2 = match acc.checked_mul(10) {
            Some(v) => match v.checked_add(d) {
                Some(w) => w,
                None => {
                    return None;
                },
            },
            None => {
                return None;
            },
        };
        proof {
            assert(s@.skip(i as int).skip(1) =~= s@.skip(i + 1 as int));
        }
        acc = acc2;
        i = i + 1;
    }
    proof {
        assert(s@.skip(i as int) =~= Seq::<char>::empty());
    }
    Some((is_up, acc))
}

/// What a vote action leaves behind: malformed payloads and unknown ids are
/// rejected without touching anything; otherwise exactly the named slip's
/// score moves by one in the vote's direction.
pub open spec fn vote_post(
    o: Seq<Omikuji>,
    n: Seq<Omikuji>,
    payload: Seq<char>,
    now: i64,
    r: Response,
) -> bool {
    match vote_payload_spec(payload) {
        None => r == Response::MalformedRequest && n == o,
        Some(p) => {
            if 1 <= p.1 as int && p.1 as int <= o.len() {
                r == (Response::Voted { is_upvote: p.0 }) && n == voted_seq(o, p.1, p.0, now)
            } else {
                r == Response::VoteNotFound && n == o
            }
        },
    }
}

/// Apply a vote action from its wire payload.
pub fn vote(repo: &mut OmikujiRepository, payload: &str, now: i64) -> (r: Response)
    requires
        old(repo).wf(),
    ensures
        final(repo).wf(),
        vote_post(old(repo)@, final(repo)@, payload@, now, r),
{
    match parse_vote_payload(payload) {
        None => Response::MalformedRequest,
        Some((is_up, vid)) => {
            if repo.vote(vid, is_up, now) {
                Response::Voted { is_upvote: is_up }
            } else {
                Response::VoteNotFound
            }
        },
    }
}

/// The reply a drawn slip produces: its decoded message, or a report that
/// the stored blob does not decode.
pub open spec fn drawn_response(slip: Omikuji, r: Response) -> bool {
    match decode_spec(slip.message@) {
        Some(d) => r matches Response::Drawn { id, message } && id == slip.id && message@ == d,
        None => r == Response::CorruptSlip,
    }
}

/// What a draw answers: nothing to draw, or the reply for some slip of the
/// eligible order — which one is the random draw's choice.
pub open spec fn draw_post(s: Seq<Omikuji>, r: Response) -> bool {
    if eligible_slips(s).len() == 0 {
        r == Response::LibraryEmpty
    } else {
        exists|k: int|
            0 <= k < eligible_slips(s).len() && drawn_response(#[trigger] eligible_slips(s)[k], r)
    }
}

/// Draw one eligible slip uniformly at random and decode it for display.
pub fn draw(repo: &OmikujiRepository) -> (r: Response)
    ensures
        draw_post(repo@, r),
{
    match repo.draw_random() {
        None => Response::LibraryEmpty,
        Some(slip) => {
            let id = slip.id;
            match decode(slip.message.as_str()) {
                Some(message) => Response::Drawn { id, message },
                None => Response::CorruptSlip,
            }
        },
    }
}

/// The position of the first `/`, if any.
pub open spec fn slash_pos(s: Seq<char>) -> Option<int>
    decreases s.len(),
{
    if s.len() == 0 {
        None
    } else if s[0] == '/' {
        Some(0)
    } else {
        match slash_pos(s.skip(1)) {
            Some(k) => Some(k + 1),
            None => None,
        }
    }
}

/// The command of a callback body: everything before the first `/`, or the
/// whole body when there is none.
pub open spec fn callback_command(s: Seq<char>) -> Seq<char> {
    match slash_pos(s) {
        Some(k) => s.take(k),
        None => s,
    }
}

/// The payload of a callback body: what stands between the first `/` and
/// the second (or the end); empty when there is no `/`.
pub open spec fn callback_payload(s: Seq<char>) -> Seq<char> {
    match slash_pos(s) {
        Some(k) => {
            let rest = s.skip(k + 1);
            match slash_pos(rest) {
                Some(j) => rest.take(j),
                None => rest,
            }
        },
        None => Seq::empty(),
    }
}

/// Skipping a slash-free prefix shifts the first slash's position by it.
proof fn lemma_slash_pos_from(s: Seq<char>, i: int)
    requires
        0 <= i <= s.len(),
        forall|j: int| 0 <= j < i ==> s[j] != '/',
    ensures
        slash_pos(s) == match slash_pos(s.skip(i)) {
            Some(k) => Some(k + i),
            None => None::<int>,
        },
    decreases i,
{
    if i > 0 {
        assert(s[0] != '/');
        assert(s.len() > 0);
        assert forall|j: int| 0 <= j < i - 1 implies s.skip(1)[j] != '/' by {
            assert(s.skip(1)[j] == s[j + 1]);
        }
        lemma_slash_pos_from(s.skip(1), i - 1);
        assert(s.skip(1).skip(i - 1) =~= s.skip(i));
    } else {
        assert(s.skip(0) =~= s);
    }
}

/// Find the first `/` of a text.
fn find_slash(s: &str) -> (r: Option<usize>)
    ensures
        match r {
            Some(i) => (i as int) < s@.len() && slash_pos(s@) == Some(i as int),
            None => slash_pos(s@) is None,
        },
{
    let len = s.unicode_len();
    let mut i: usize = 0;
    while i < len
        invariant
            i <= len,
            len == s@.len(),
            forall|j: int| 0 <= j < i ==> s@[j] != '/',
        decreases len - i,
    {
        if s.get_char(i) == '/' {
            proof {
                lemma_slash_pos_from(s@, i as int);
                assert(s@.skip(i as int)[0] == s@[i as int]);
            }
            return Some(i);
        }
        i = i + 1;
    }
    proof {
        lemma_slash_pos_from(s@, len as int);
        assert(s@.skip(len as int) =~= Seq::<char>::empty());
    }
    None
}

/// Split a callback body into its command and its payload.
fn split_callback(s: &str) -> (r: (String, String))
    ensures
        r.0@ == callback_command(s@),
        r.1@ == callback_payload(s@),
{
    let len = s.unicode_len();
    match find_slash(s) {
        None => (String::from_str(s), String::new()),
        Some(i) => {
            let command = String::from_str(s.substring_char(0, i));
            proof {
                assert(command@ =~= s@.take(i as int));
            }
            let rest = s.substring_char(i + 1, len);
            proof {
                assert(rest@ =~= s@.skip(i + 1 as int));
            }
            let payload = match find_slash(rest) {
                None => String::from_str(rest),
                Some(j) => {
                    let p = String::from_str(rest.substring_char(0, j));
                    proof {
                        assert(p@ =~= rest@.take(j as int));
                    }
                    p
                },
            };
            (command, payload)
        },
    }
}

/// What the callback entry answers and changes, by the routed command: each
/// branch is the routed handler's own contract; an unknown command echoes
/// back and changes nothing.
pub open spec fn callback_entry_post(
    o_map: Map<i64, OmikujiMessage>,
    n_map: Map<i64, OmikujiMessage>,
    o_rep: Seq<Omikuji>,
    n_rep: Seq<Omikuji>,
    id: i64,
    author_name: String,
    data: Option<String>,
    now: i64,
    r: Response,
) -> bool {
    match data {
        None => r == Response::EmptyCallback && n_map == o_map && n_rep == o_rep,
        Some(body) => {
            let c = callback_command(body@);
            let p = callback_payload(body@);
            if c == "new"@ {
                new_post(o_map, n_map, id, r) && n_rep == o_rep
            } else if c == "draw"@ {
                draw_post(o_rep, r) && n_map == o_map && n_rep == o_rep
            } else if c == "choose-class"@ {
                class_post(o_map, n_map, id, p, r) && n_rep == o_rep
            } else if c == "choose-section"@ {
                section_post(o_map, n_map, id, p, r) && n_rep == o_rep
            } else if c == "save"@ || c == "attach-photo"@ {
                r == Response::AskPhoto && n_map == o_map && n_rep == o_rep
            } else if c == "skip-photo"@ {
                save_post(o_map, n_map, o_rep, n_rep, id, author_name, None, now, r)
            } else if c == "vote"@ {
                vote_post(o_rep, n_rep, p, now, r) && n_map == o_map
            } else if c == "cancel"@ {
                cancel_post(o_map, n_map, id, r) && n_rep == o_rep
            } else {
                (r matches Response::CallbackNotRecognized { command } && command@ == c) && n_map
                    == o_map && n_rep == o_rep
            }
        },
    }
}

/// Entry for button callbacks: split the body into command and payload and
/// route to the handler.
pub fn callback_entry(
    store: &mut SessionStore,
    repo: &mut OmikujiRepository,
    id: i64,
    author_name: String,
    data: Option<String>,
    now: i64,
) -> (r: Response)
    requires
        old(store).wf(),
        old(repo).wf(),
        old(repo)@.len() < u32::MAX as int,
    ensures
        final(store).wf(),
        final(repo).wf(),
        callback_entry_post(
            old(store)@,
            final(store)@,
            old(repo)@,
            final(repo)@,
            id,
            author_name,
            data,
            now,
            r,
        ),
{
    let body = match data {
        None => {
            return Response::EmptyCallback;
        },
        Some(body) => body,
    };
    let (command, payload) = split_callback(body.as_str());
    if str_eq(command.as_str(), "new") {
        new(store, id)
    } else if str_eq(command.as_str(), "draw") {
        draw(repo)
    } else if str_eq(command.as_str(), "choose-class") {
        class(store, id, payload.as_str())
    } else if str_eq(command.as_str(), "choose-section") {
        section(store, id, payload.as_str())
    } else if str_eq(command.as_str(), "save") || str_eq(command.as_str(), "attach-photo") {
        ask_photo()
    } else if str_eq(command.as_str(), "skip-photo") {
        save(store, repo, id, author_name, None, now)
    } else if str_eq(command.as_str(), "vote") {
        vote(repo, payload.as_str(), now)
    } else if str_eq(command.as_str(), "cancel") {
        cancel(store, id)
    } else {
        Response::CallbackNotRecognized { command }
    }
}

/// One inbound transport event, reduced to what the core reads of it: text,
/// a photo's file references, or something else.
#[derive(Debug, PartialEq)]
pub enum MessageEvent {
    Text(String),
    Photo(Vec<String>),
    Other,
}

/// What the message entry answers and changes. A leading `/` routes to the
/// commands; other text is captured as the description or the open
/// section's text when one is awaited, told to pick a section first when
/// none is open yet, and otherwise answered with the greeting. A photo with
/// content is the commit-with-photo action; one without is malformed.
pub open spec fn message_entry_post(
    o_map: Map<i64, OmikujiMessage>,
    n_map: Map<i64, OmikujiMessage>,
    o_rep: Seq<Omikuji>,
    n_rep: Seq<Omikuji>,
    id: i64,
    author_name: String,
    event: MessageEvent,
    now: i64,
    r: Response,
) -> bool {
    match event {
        MessageEvent::Text(data) => {
            if data@.len() > 0 && data@[0] == '/' {
                if data@ == "/start"@ {
                    r == Response::MainMenu && n_map == o_map && n_rep == o_rep
                } else if data@ == "/current"@ {
                    current_post(o_map, id, r) && n_map == o_map && n_rep == o_rep
                } else if data@ == "/cancel"@ {
                    cancel_post(o_map, n_map, id, r) && n_rep == o_rep
                } else if data@ == "/about"@ {
                    r == Response::About && n_map == o_map && n_rep == o_rep
                } else if data@ == "/debug"@ {
                    debug_post(o_map, id, r) && n_map == o_map && n_rep == o_rep
                } else {
                    r == (Response::CommandNotRecognized { command: data }) && n_map == o_map
                        && n_rep == o_rep
                }
            } else {
                &&& n_rep == o_rep
                &&& if o_map.contains_key(id) && o_map[id]@.class is Some && o_map[id]@.description
                    is None {
                    update_description_post(o_map, n_map, id, data@, Some(r))
                } else if !o_map.contains_key(id) {
                    r == Response::Welcome && n_map == o_map
                } else if o_map[id]@.sections.len() == 0 {
                    r == Response::SelectSectionFirst && n_map == o_map
                } else if o_map[id]@.sections.last().1.len() > 0 {
                    r == Response::Welcome && n_map == o_map
                } else {
                    update_section_post(o_map, n_map, id, data@, Some(r))
                }
            }
        },
        MessageEvent::Photo(refs) => {
            if refs@.len() == 0 {
                r == Response::MalformedImage && n_map == o_map && n_rep == o_rep
            } else {
                save_post(o_map, n_map, o_rep, n_rep, id, author_name, Some(refs@[0]), now, r)
            }
        },
        MessageEvent::Other => r == Response::UnsupportedMessage && n_map == o_map && n_rep
            == o_rep,
    }
}

/// Entry for inbound messages: commands and freeform text, photos, and
/// everything else.
pub fn message_entry(
    store: &mut SessionStore,
    repo: &mut OmikujiRepository,
    id: i64,
    author_name: String,
    event: MessageEvent,
    now: i64,
) -> (r: Response)
    requires
        old(store).wf(),
        old(repo).wf(),
        old(repo)@.len() < u32::MAX as int,
    ensures
        final(store).wf(),
        final(repo).wf(),
        message_entry_post(
            old(store)@,
            final(store)@,
            old(repo)@,
            final(repo)@,
            id,
            author_name,
            event,
            now,
            r,
        ),
{
    match event {
        MessageEvent::Text(data) => {
            let is_command = data.as_str().unicode_len() > 0 && data.as_str().get_char(0) == '/';
            if is_command {
                if str_eq(data.as_str(), "/start") {
                    start()
                } else if str_eq(data.as_str(), "/current") {
                    current(store, id)
                } else if str_eq(data.as_str(), "/cancel") {
                    cancel(store, id)
                } else if str_eq(data.as_str(), "/about") {
                    about()
                } else if str_eq(data.as_str(), "/debug") {
                    debug(store, id)
                } else {
                    Response::CommandNotRecognized { command: data }
                }
            } else {
                match update_description(store, id, data.as_str()) {
                    Some(captured) => captured,
                    None => match update_section(store, id, data.as_str()) {
                        Some(captured) => captured,
                        None => Response::Welcome,
                    },
                }
            }
        },
        MessageEvent::Photo(mut refs) => {
            if refs.len() == 0 {
                Response::MalformedImage
            } else {
                let first = refs.remove(0);
                save(store, repo, id, author_name, Some(first), now)
            }
        },
        MessageEvent::Other => Response::UnsupportedMessage,
    }
}

/// A slip only ever comes from the open commit gate. Whenever a callback
/// run grows the repository, the acting identity held a draft whose last
/// section had text, the reply reported the save, the session ended, and
/// the one new slip is the last one and carries that draft's encoding, with
/// no photo (only a photo upload attaches one).
pub proof fn lemma_callback_commit_needs_ready(
    o_map: Map<i64, OmikujiMessage>,
    n_map: Map<i64, OmikujiMessage>,
    o_rep: Seq<Omikuji>,
    n_rep: Seq<Omikuji>,
    id: i64,
    author_name: String,
    data: Option<String>,
    now: i64,
    r: Response,
)
    requires
        callback_entry_post(o_map, n_map, o_rep, n_rep, id, author_name, data, now, r),
        n_rep.len() != o_rep.len(),
    ensures
        o_map.contains_key(id),
        commit_ready(o_map[id]@),
        r == Response::Saved,
        n_map == o_map.remove(id),
        n_rep == o_rep.push(n_rep.last()),
        n_rep.last().message@ == encode_spec(committed_draft(o_map[id]@, None)),
        n_rep.last().vote_count == 0,
{
}

/// The message path commits only through a photo upload, and again only
/// through the open gate: a run that grows the repository saved the acting
/// identity's ready draft with the uploaded photo attached, and ended the
/// session.
pub proof fn lemma_message_commit_needs_ready(
    o_map: Map<i64, OmikujiMessage>,
    n_map: Map<i64, OmikujiMessage>,
    o_rep: Seq<Omikuji>,
    n_rep: Seq<Omikuji>,
    id: i64,
    author_name: String,
    event: MessageEvent,
    now: i64,
    r: Response,
)
    requires
        message_entry_post(o_map, n_map, o_rep, n_rep, id, author_name, event, now, r),
        n_rep.len() != o_rep.len(),
    ensures
        o_map.contains_key(id),
        commit_ready(o_map[id]@),
        r == Response::Saved,
        n_map == o_map.remove(id),
        n_rep == o_rep.push(n_rep.last()),
        event matches MessageEvent::Photo(refs) && refs@.len() > 0 && n_rep.last().message@
            == encode_spec(committed_draft(o_map[id]@, Some(refs@[0]))),
{
}

} // verus!
