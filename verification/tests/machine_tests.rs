use omikuji_bot::machine::{callback_entry, message_entry, MessageEvent, Response};
use omikuji_bot::models::{OmikujiClass, OmikujiSection};
use omikuji_bot::repository::OmikujiRepository;
use omikuji_bot::store::SessionStore;

const U: i64 = 7;

fn name() -> String {
    String::from("Taro Yamada")
}

fn cb(store: &mut SessionStore, repo: &mut OmikujiRepository, body: &str, now: i64) -> Response {
    callback_entry(store, repo, U, name(), Some(String::from(body)), now)
}

fn text(store: &mut SessionStore, repo: &mut OmikujiRepository, body: &str, now: i64) -> Response {
    message_entry(store, repo, U, name(), MessageEvent::Text(String::from(body)), now)
}

#[test]
fn full_submission_scenario() {
    let mut store = SessionStore::new();
    let mut repo = OmikujiRepository::new();

    assert_eq!(cb(&mut store, &mut repo, "new", 1), Response::ClassOptions);
    assert_eq!(cb(&mut store, &mut repo, "choose-class/GreatBlessing", 2), Response::AskDescription);
    assert_eq!(text(&mut store, &mut repo, "good fortune", 3), Response::SectionOptions);
    assert_eq!(
        cb(&mut store, &mut repo, "choose-section/Travel", 4),
        Response::AskSectionText { kind: OmikujiSection::Travel }
    );
    assert_eq!(text(&mut store, &mut repo, "safe journeys", 5), Response::SectionOrSave);
    assert_eq!(cb(&mut store, &mut repo, "save", 6), Response::AskPhoto);
    assert_eq!(cb(&mut store, &mut repo, "skip-photo", 7), Response::Saved);

    // the slip is persisted with what was entered, and the session is gone
    assert_eq!(repo.len(), 1);
    let slip = repo.find_by_id(1).expect("committed");
    assert_eq!(slip.vote_count, 0);
    assert_eq!(slip.tg_id, U);
    assert_eq!(slip.tg_name, "Taro Yamada");
    assert_eq!(slip.photo, None);
    let message = omikuji_bot::codec::decode(slip.message.as_str()).expect("stored blob decodes");
    assert_eq!(message.class, Some(OmikujiClass::GreatBlessing));
    assert_eq!(message.description.as_deref(), Some("good fortune"));
    assert_eq!(message.sections.len(), 1);
    assert_eq!(message.sections[0].0, OmikujiSection::Travel);
    assert_eq!(message.sections[0].1, "safe journeys");
    assert_eq!(message.photo, None);
    assert!(!store.contains(U));
    assert_eq!(text(&mut store, &mut repo, "/current", 8), Response::NoCurrent);
}

#[test]
fn save_with_no_sections_is_rejected_and_changes_nothing() {
    let mut store = SessionStore::new();
    let mut repo = OmikujiRepository::new();
    cb(&mut store, &mut repo, "new", 1);
    cb(&mut store, &mut repo, "choose-class/Blessing", 2);
    text(&mut store, &mut repo, "a hopeful year", 3);

    assert_eq!(cb(&mut store, &mut repo, "skip-photo", 4), Response::IncompleteStrip);
    assert_eq!(repo.len(), 0);
    let draft = store.read(U).expect("draft kept");
    assert_eq!(draft.class, Some(OmikujiClass::Blessing));
    assert_eq!(draft.description.as_deref(), Some("a hopeful year"));
    assert_eq!(draft.sections.len(), 0);
}

#[test]
fn save_with_open_section_is_rejected() {
    let mut store = SessionStore::new();
    let mut repo = OmikujiRepository::new();
    cb(&mut store, &mut repo, "new", 1);
    cb(&mut store, &mut repo, "choose-class/Curse", 2);
    text(&mut store, &mut repo, "beware", 3);
    cb(&mut store, &mut repo, "choose-section/Illness", 4);
    assert_eq!(cb(&mut store, &mut repo, "skip-photo", 5), Response::IncompleteStrip);
    assert_eq!(repo.len(), 0);
    assert!(store.contains(U));
}

#[test]
fn vote_against_missing_slip_reports_not_found() {
    let mut store = SessionStore::new();
    let mut repo = OmikujiRepository::new();
    assert_eq!(cb(&mut store, &mut repo, "vote/+7", 1), Response::VoteNotFound);
    assert_eq!(repo.len(), 0);
}

#[test]
fn vote_payload_grammar() {
    let mut store = SessionStore::new();
    let mut repo = OmikujiRepository::new();
    full_commit(&mut store, &mut repo);
    assert_eq!(cb(&mut store, &mut repo, "vote/+1", 10), Response::Voted { is_upvote: true });
    assert_eq!(repo.find_by_id(1).unwrap().vote_count, 1);
    assert_eq!(cb(&mut store, &mut repo, "vote/-1", 11), Response::Voted { is_upvote: false });
    assert_eq!(repo.find_by_id(1).unwrap().vote_count, 0);
    for bad in ["vote", "vote/", "vote/+", "vote/1", "vote/x1", "vote/+x", "vote/++1",
        "vote/+1x", "vote/+4294967296"]
    {
        assert_eq!(cb(&mut store, &mut repo, bad, 12), Response::MalformedRequest);
    }
    assert_eq!(repo.find_by_id(1).unwrap().vote_count, 0);
}

#[test]
fn class_step_rejections() {
    let mut store = SessionStore::new();
    let mut repo = OmikujiRepository::new();
    assert_eq!(cb(&mut store, &mut repo, "choose-class/Blessing", 1), Response::NoDraftForClass);
    cb(&mut store, &mut repo, "new", 2);
    assert_eq!(cb(&mut store, &mut repo, "choose-class/NotAClass", 3), Response::MalformedRequest);
    assert_eq!(cb(&mut store, &mut repo, "choose-class/Unknown", 4), Response::MalformedRequest);
    assert_eq!(cb(&mut store, &mut repo, "choose-class/Blessing", 5), Response::AskDescription);
    assert_eq!(cb(&mut store, &mut repo, "choose-class/Curse", 6), Response::ClassAlreadySet);
    let draft = store.read(U).expect("draft");
    assert_eq!(draft.class, Some(OmikujiClass::Blessing));
}

#[test]
fn section_step_rejections() {
    let mut store = SessionStore::new();
    let mut repo = OmikujiRepository::new();
    assert_eq!(cb(&mut store, &mut repo, "choose-section/Travel", 1), Response::NoDraftForSection);
    cb(&mut store, &mut repo, "new", 2);
    assert_eq!(cb(&mut store, &mut repo, "choose-section/Travel", 3), Response::NeedClassFirst);
    cb(&mut store, &mut repo, "choose-class/Blessing", 4);
    assert_eq!(cb(&mut store, &mut repo, "choose-section/Travel", 5), Response::NeedDescriptionFirst);
    text(&mut store, &mut repo, "desc", 6);
    assert_eq!(cb(&mut store, &mut repo, "choose-section/Weather", 7), Response::MalformedRequest);
    assert_eq!(
        cb(&mut store, &mut repo, "choose-section/Travel", 8),
        Response::AskSectionText { kind: OmikujiSection::Travel }
    );
    assert_eq!(cb(&mut store, &mut repo, "choose-section/Love", 9), Response::FinishPreviousSection);
}

#[test]
fn second_new_is_rejected() {
    let mut store = SessionStore::new();
    let mut repo = OmikujiRepository::new();
    assert_eq!(cb(&mut store, &mut repo, "new", 1), Response::ClassOptions);
    assert_eq!(cb(&mut store, &mut repo, "new", 2), Response::MustCompletePrevious);
    assert!(store.contains(U));
}

#[test]
fn cancel_always_succeeds() {
    let mut store = SessionStore::new();
    let mut repo = OmikujiRepository::new();
    assert_eq!(text(&mut store, &mut repo, "/cancel", 1), Response::Cancelled);
    cb(&mut store, &mut repo, "new", 2);
    assert_eq!(text(&mut store, &mut repo, "/cancel", 3), Response::Cancelled);
    assert!(!store.contains(U));
    cb(&mut store, &mut repo, "new", 4);
    assert_eq!(cb(&mut store, &mut repo, "cancel", 5), Response::Cancelled);
    assert!(!store.contains(U));
}

#[test]
fn photo_affordances_prompt_for_the_decision() {
    let mut store = SessionStore::new();
    let mut repo = OmikujiRepository::new();
    assert_eq!(cb(&mut store, &mut repo, "save", 1), Response::AskPhoto);
    assert_eq!(cb(&mut store, &mut repo, "attach-photo", 2), Response::AskPhoto);
    assert_eq!(repo.len(), 0);
}

#[test]
fn commands_and_fallbacks() {
    let mut store = SessionStore::new();
    let mut repo = OmikujiRepository::new();
    assert_eq!(text(&mut store, &mut repo, "/start", 1), Response::MainMenu);
    assert_eq!(text(&mut store, &mut repo, "/about", 2), Response::About);
    assert_eq!(text(&mut store, &mut repo, "/current", 3), Response::NoCurrent);
    assert_eq!(text(&mut store, &mut repo, "/debug", 4), Response::DebugEmpty);
    assert_eq!(
        text(&mut store, &mut repo, "/nope", 5),
        Response::CommandNotRecognized { command: String::from("/nope") }
    );
    assert_eq!(text(&mut store, &mut repo, "hello there", 6), Response::Welcome);
    let other = message_entry(&mut store, &mut repo, U, name(), MessageEvent::Other, 7);
    assert_eq!(other, Response::UnsupportedMessage);
    let empty = callback_entry(&mut store, &mut repo, U, name(), None, 8);
    assert_eq!(empty, Response::EmptyCallback);
    assert_eq!(
        cb(&mut store, &mut repo, "frobnicate/x", 9),
        Response::CallbackNotRecognized { command: String::from("frobnicate") }
    );
}

#[test]
fn current_shows_the_draft() {
    let mut store = SessionStore::new();
    let mut repo = OmikujiRepository::new();
    cb(&mut store, &mut repo, "new", 1);
    cb(&mut store, &mut repo, "choose-class/HalfBlessing", 2);
    text(&mut store, &mut repo, "so-so", 3);
    match text(&mut store, &mut repo, "/current", 4) {
        Response::Current { draft } => {
            assert_eq!(draft.class, Some(OmikujiClass::HalfBlessing));
            assert_eq!(draft.description.as_deref(), Some("so-so"));
            assert_eq!(draft.render(), "*HalfBlessing*\nso-so\n");
        }
        other => panic!("expected the current draft, got {:?}", other),
    }
    // the query must not consume the draft
    assert!(store.contains(U));
}

#[test]
fn text_while_section_awaited_is_told_to_pick_one() {
    let mut store = SessionStore::new();
    let mut repo = OmikujiRepository::new();
    cb(&mut store, &mut repo, "new", 1);
    assert_eq!(text(&mut store, &mut repo, "too early", 2), Response::SelectSectionFirst);
    cb(&mut store, &mut repo, "choose-class/Blessing", 3);
    text(&mut store, &mut repo, "desc", 4);
    cb(&mut store, &mut repo, "choose-section/Travel", 5);
    text(&mut store, &mut repo, "filled", 6);
    // the last section already has text: plain text is unhandled again
    assert_eq!(text(&mut store, &mut repo, "dangling", 7), Response::Welcome);
}

fn full_commit(store: &mut SessionStore, repo: &mut OmikujiRepository) {
    cb(store, repo, "new", 1);
    cb(store, repo, "choose-class/GreatBlessing", 2);
    text(store, repo, "good fortune", 3);
    cb(store, repo, "choose-section/Travel", 4);
    text(store, repo, "safe journeys", 5);
    cb(store, repo, "skip-photo", 6);
}

#[test]
fn photo_upload_commits_with_the_photo() {
    let mut store = SessionStore::new();
    let mut repo = OmikujiRepository::new();
    cb(&mut store, &mut repo, "new", 1);
    cb(&mut store, &mut repo, "choose-class/GreatBlessing", 2);
    text(&mut store, &mut repo, "good fortune", 3);
    cb(&mut store, &mut repo, "choose-section/Travel", 4);
    text(&mut store, &mut repo, "safe journeys", 5);
    let upload = MessageEvent::Photo(vec![String::from("file-1"), String::from("file-2")]);
    let r = message_entry(&mut store, &mut repo, U, name(), upload, 6);
    assert_eq!(r, Response::Saved);
    let slip = repo.find_by_id(1).expect("committed");
    assert_eq!(slip.photo.as_deref(), Some("file-1"));
    let message = omikuji_bot::codec::decode(slip.message.as_str()).expect("decodes");
    assert_eq!(message.photo.as_deref(), Some("file-1"));
    assert!(!store.contains(U));
}

#[test]
fn empty_photo_upload_is_malformed() {
    let mut store = SessionStore::new();
    let mut repo = OmikujiRepository::new();
    let r = message_entry(&mut store, &mut repo, U, name(), MessageEvent::Photo(vec![]), 1);
    assert_eq!(r, Response::MalformedImage);
    assert_eq!(repo.len(), 0);
}

#[test]
fn draw_returns_the_committed_slip() {
    let mut store = SessionStore::new();
    let mut repo = OmikujiRepository::new();
    full_commit(&mut store, &mut repo);
    for _ in 0..50 {
        match cb(&mut store, &mut repo, "draw", 10) {
            Response::Drawn { id, message } => {
                assert_eq!(id, 1);
                assert_eq!(message.class, Some(OmikujiClass::GreatBlessing));
                assert_eq!(message.description.as_deref(), Some("good fortune"));
            }
            other => panic!("expected a drawn slip, got {:?}", other),
        }
    }
}

#[test]
fn draw_on_empty_library() {
    let mut store = SessionStore::new();
    let mut repo = OmikujiRepository::new();
    assert_eq!(cb(&mut store, &mut repo, "draw", 1), Response::LibraryEmpty);
}

#[test]
fn heavily_downvoted_slip_stops_being_drawn() {
    let mut store = SessionStore::new();
    let mut repo = OmikujiRepository::new();
    full_commit(&mut store, &mut repo);
    cb(&mut store, &mut repo, "vote/-1", 10);
    cb(&mut store, &mut repo, "vote/-1", 11);
    assert_eq!(repo.find_by_id(1).unwrap().vote_count, -2);
    assert!(matches!(cb(&mut store, &mut repo, "draw", 12), Response::Drawn { .. }));
    cb(&mut store, &mut repo, "vote/-1", 13);
    assert_eq!(repo.find_by_id(1).unwrap().vote_count, -3);
    assert_eq!(cb(&mut store, &mut repo, "draw", 14), Response::LibraryEmpty);
}
