use omikuji_bot::models::NewOmikuji;
use omikuji_bot::repository::OmikujiRepository;

fn payload(text: &str, who: i64) -> NewOmikuji {
    NewOmikuji { message: String::from(text), tg_id: who, tg_name: String::from("Tester") }
}

#[test]
fn create_assigns_dense_ids_and_zero_score() {
    let mut repo = OmikujiRepository::new();
    assert_eq!(repo.create(payload("a", 1), None, 100), 1);
    assert_eq!(repo.create(payload("b", 2), None, 101), 2);
    assert_eq!(repo.create(payload("c", 3), None, 102), 3);
    let second = repo.find_by_id(2).expect("created");
    assert_eq!(second.id, 2);
    assert_eq!(second.message, "b");
    assert_eq!(second.vote_count, 0);
    assert_eq!(second.tg_id, 2);
    assert_eq!(second.tg_name, "Tester");
    assert_eq!(second.created_at, 101);
    assert_eq!(second.updated_at, 101);
    assert_eq!(repo.find_by_id(0), None);
    assert_eq!(repo.find_by_id(4), None);
}

#[test]
fn one_upvote_then_one_downvote_returns_to_zero() {
    let mut repo = OmikujiRepository::new();
    repo.create(payload("a", 1), None, 100);
    assert!(repo.vote(1, true, 200));
    assert_eq!(repo.find_by_id(1).unwrap().vote_count, 1);
    assert_eq!(repo.find_by_id(1).unwrap().updated_at, 200);
    assert!(repo.vote(1, false, 300));
    assert_eq!(repo.find_by_id(1).unwrap().vote_count, 0);
    assert_eq!(repo.find_by_id(1).unwrap().updated_at, 300);
    assert_eq!(repo.find_by_id(1).unwrap().created_at, 100);
}

#[test]
fn vote_against_missing_id_changes_nothing() {
    let mut repo = OmikujiRepository::new();
    repo.create(payload("a", 1), None, 100);
    assert!(!repo.vote(9, true, 200));
    assert_eq!(repo.find_by_id(1).unwrap().vote_count, 0);
    assert_eq!(repo.find_by_id(1).unwrap().updated_at, 100);
}

#[test]
fn draw_on_empty_repository_is_none() {
    let repo = OmikujiRepository::new();
    assert_eq!(repo.eligible_count(), 0);
    for _ in 0..100 {
        assert!(repo.draw_random().is_none());
    }
}

#[test]
fn threshold_excludes_at_minus_three_keeps_minus_two() {
    let mut repo = OmikujiRepository::new();
    repo.create(payload("a", 1), None, 100);
    repo.vote(1, false, 101);
    repo.vote(1, false, 102);
    assert_eq!(repo.find_by_id(1).unwrap().vote_count, -2);
    assert_eq!(repo.eligible_count(), 1);
    repo.vote(1, false, 103);
    assert_eq!(repo.find_by_id(1).unwrap().vote_count, -3);
    assert_eq!(repo.eligible_count(), 0);
    for _ in 0..100 {
        assert!(repo.draw_random().is_none());
    }
    // the record itself is never deleted
    assert!(repo.find_by_id(1).is_some());
}

#[test]
fn single_eligible_slip_is_always_drawn() {
    let mut repo = OmikujiRepository::new();
    repo.create(payload("kept", 1), None, 100);
    repo.create(payload("buried", 2), None, 100);
    repo.vote(2, false, 101);
    repo.vote(2, false, 102);
    repo.vote(2, false, 103);
    assert_eq!(repo.eligible_count(), 1);
    for _ in 0..200 {
        let drawn = repo.draw_random().expect("one slip is eligible");
        assert_eq!(drawn.id, 1);
        assert_eq!(drawn.message, "kept");
    }
}

#[test]
fn offsets_walk_eligible_slips_in_id_order() {
    let mut repo = OmikujiRepository::new();
    repo.create(payload("a", 1), None, 100);
    repo.create(payload("b", 2), None, 100);
    repo.create(payload("c", 3), None, 100);
    // bury the middle one
    repo.vote(2, false, 101);
    repo.vote(2, false, 102);
    repo.vote(2, false, 103);
    assert_eq!(repo.eligible_count(), 2);
    assert_eq!(repo.eligible_at(0).unwrap().id, 1);
    assert_eq!(repo.eligible_at(1).unwrap().id, 3);
    assert!(repo.eligible_at(2).is_none());
}

#[test]
fn draws_are_spread_evenly() {
    let mut repo = OmikujiRepository::new();
    repo.create(payload("a", 1), None, 100);
    repo.create(payload("b", 2), None, 100);
    repo.create(payload("c", 3), None, 100);
    let mut counts = [0u32; 3];
    let total = 30_000;
    for _ in 0..total {
        let drawn = repo.draw_random().expect("all eligible");
        counts[(drawn.id - 1) as usize] += 1;
    }
    // each slip should come up about a third of the time; the margin is
    // far wider than any plausible random fluctuation
    for count in counts {
        assert!(count > 8_000, "a slip was drawn only {} of {} times", count, total);
        assert!(count < 12_000, "a slip was drawn {} of {} times", count, total);
    }
}

#[test]
fn every_eligible_slip_is_eventually_drawn() {
    let mut repo = OmikujiRepository::new();
    repo.create(payload("a", 1), None, 100);
    repo.create(payload("b", 2), None, 100);
    repo.create(payload("c", 3), None, 100);
    let mut seen = [false; 3];
    for _ in 0..1000 {
        let drawn = repo.draw_random().expect("all eligible");
        seen[(drawn.id - 1) as usize] = true;
    }
    assert!(seen[0] && seen[1] && seen[2]);
}
