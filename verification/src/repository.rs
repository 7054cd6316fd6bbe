//! The slip repository, the draw selector, and the voting engine. Slips are
//! append-only: a commit adds one, nothing ever removes one, and only the
//! moderation score (with its timestamp) is ever changed afterwards. A draw
//! picks one slip uniformly at random among those whose score is above the
//! eligibility threshold, under the stable ascending-id order.

use vstd::prelude::*;

use crate::models::NewOmikuji;
use crate::models::Omikuji;

verus! {

/// Slips at or below this moderation score are excluded from draws.
pub open spec fn eligibility_threshold() -> int {
    -3
}

/// Whether a slip can still be drawn.
pub open spec fn slip_eligible(s: Omikuji) -> bool {
    s.vote_count > eligibility_threshold()
}

/// The slips that can be drawn, in their stored (ascending id) order.
pub open spec fn eligible_slips(s: Seq<Omikuji>) -> Seq<Omikuji>
    decreases s.len(),
{
    if s.len() == 0 {
        Seq::empty()
    } else if slip_eligible(s.last()) {
        eligible_slips(s.drop_last()).push(s.last())
    } else {
        eligible_slips(s.drop_last())
    }
}

/// Ids are assigned in order of creation: the slip at position `i` has id
/// `i + 1`.
pub open spec fn ids_sequential(s: Seq<Omikuji>) -> bool {
    forall|i: int| 0 <= i < s.len() ==> (#[trigger] s[i]).id == i + 1
}

/// Ids grow strictly along the sequence.
pub open spec fn ids_ascending(s: Seq<Omikuji>) -> bool {
    forall|i: int, j: int| 0 <= i < j < s.len() ==> (#[trigger] s[i]).id < (#[trigger] s[j]).id
}

/// A score moved by `delta`, held at the machine's bounds rather than
/// wrapping or failing.
pub open spec fn adjusted_score(score: i32, delta: i32) -> i32 {
    if score + delta > i32::MAX {
        i32::MAX
    } else if score + delta < i32::MIN {
        i32::MIN
    } else {
        (score + delta) as i32
    }
}

/// A vote moves the score by one in the vote's direction.
pub open spec fn vote_result(score: i32, is_upvote: bool) -> i32 {
    adjusted_score(score, if is_upvote { 1i32 } else { -1i32 })
}

/// The slip sequence after one adjustment of the slip with id `vid`: only
/// that slip's score and update timestamp move.
pub open spec fn adjusted_seq(s: Seq<Omikuji>, vid: u32, delta: i32, now: i64) -> Seq<Omikuji> {
    let j = vid as int - 1;
    s.update(
        j,
        Omikuji {
            id: s[j].id,
            photo: s[j].photo,
            message: s[j].message,
            vote_count: adjusted_score(s[j].vote_count, delta),
            tg_id: s[j].tg_id,
            tg_name: s[j].tg_name,
            updated_at: now,
            created_at: s[j].created_at,
        },
    )
}

/// The slip sequence after one vote against the slip with id `vid`.
pub open spec fn voted_seq(s: Seq<Omikuji>, vid: u32, is_upvote: bool, now: i64) -> Seq<Omikuji> {
    adjusted_seq(s, vid, if is_upvote { 1i32 } else { -1i32 }, now)
}

/// Relies on `rand::random_range` over `0..n`: the result lies in the range,
/// and the call panics only on an empty range, which `n >= 1` rules out.
/// Nothing more is assumed of a random draw.
#[verifier::external_body]
fn random_below(n: u64) -> (r: u64)
    requires
        n >= 1,
    ensures
        r < n,
{
    rand::random_range(0..n)
}

/// The durable store of committed slips.
pub struct OmikujiRepository {
    slips: Vec<Omikuji>,
}

impl View for OmikujiRepository {
    type V = Seq<Omikuji>;

    closed spec fn view(&self) -> Seq<Omikuji> {
        self.slips@
    }
}

impl OmikujiRepository {
    /// The repository's invariant: ids are assigned in creation order.
    pub open spec fn wf(&self) -> bool {
        ids_sequential(self@)
    }

    /// An empty repository.
    pub fn new() -> (r: OmikujiRepository)
        ensures
            r@ == Seq::<Omikuji>::empty(),
            r.wf(),
    {
        let r = OmikujiRepository { slips: Vec::new() };
        proof {
            assert(r@ =~= Seq::<Omikuji>::empty());
        }
        r
    }

    /// How many slips have been committed.
    pub fn len(&self) -> (r: usize)
        ensures
            r == self@.len(),
    {
        self.slips.len()
    }

    /// Store a new slip: it gets the next id, a moderation score of zero,
    /// and both timestamps set to `now`. Nothing else changes.
    pub fn create(&mut self, new: NewOmikuji, photo: Option<String>, now: i64) -> (id: u32)
        requires
            old(self).wf(),
            old(self)@.len() < u32::MAX as int,
        ensures
            final(self).wf(),
            id as int == old(self)@.len() + 1,
            final(self)@ == old(self)@.push(
                Omikuji {
                    id,
                    photo,
                    message: new.message,
                    vote_count: 0,
                    tg_id: new.tg_id,
                    tg_name: new.tg_name,
                    updated_at: now,
                    created_at: now,
                },
            ),
    {
        let id = self.slips.len() as u32 + 1;
        let slip = Omikuji {
            id,
            photo,
            message: new.message,
            vote_count: 0,
            tg_id: new.tg_id,
            tg_name: new.tg_name,
            updated_at: now,
            created_at: now,
        };
        self.slips.push(slip);
        id
    }

    /// Look a slip up by id; ids start at one and are dense.
    pub fn find_by_id(&self, id: u32) -> (r: Option<&Omikuji>)
        requires
            self.wf(),
        ensures
            match r {
                Some(slip) => 1 <= id as int && id as int <= self@.len() && *slip == self@[id as int
                    - 1] && slip.id == id,
                None => !(1 <= id as int && id as int <= self@.len()),
            },
    {
        if id >= 1 && (id as usize) <= self.slips.len() {
            Some(&self.slips[(id - 1) as usize])
        } else {
            None
        }
    }

    /// Read the score of the slip with the given id and write it back moved
    /// by `delta`, held at the machine's bounds; the slip's update timestamp
    /// becomes `now`, and every other field and every other slip is
    /// untouched. Returns whether the slip exists; on a missing id nothing
    /// changes anywhere.
    pub fn adjust_score(&mut self, id: u32, delta: i32, now: i64) -> (r: bool)
        requires
            old(self).wf(),
        ensures
            final(self).wf(),
            r == (1 <= id as int && id as int <= old(self)@.len()),
            !r ==> final(self)@ == old(self)@,
            r ==> final(self)@ == adjusted_seq(old(self)@, id, delta, now),
    {
        if id >= 1 && (id as usize) <= self.slips.len() {
            let j = (id - 1) as usize;
            let slip = &mut self.slips[j];
            slip.vote_count = match slip.vote_count.checked_add(delta) {
                Some(v) => v,
                None => {
                    if delta > 0 {
                        i32::MAX
                    } else {
                        i32::MIN
                    }
                },
            };
            slip.updated_at = now;
            proof {
                assert forall|i: int| 0 <= i < self@.len() implies (#[trigger] self@[i]).id == i
                    + 1 by {
                    if i != j {
                        assert(self@[i] == old(self)@[i]);
                    }
                }
            }
            true
        } else {
            false
        }
    }

    /// Apply one vote to the slip with the given id: its score moves by one
    /// in the vote's direction.
    pub fn vote(&mut self, id: u32, is_upvote: bool, now: i64) -> (r: bool)
        requires
            old(self).wf(),
        ensures
            final(self).wf(),
            r == (1 <= id as int && id as int <= old(self)@.len()),
            !r ==> final(self)@ == old(self)@,
            r ==> final(self)@ == voted_seq(old(self)@, id, is_upvote, now),
    {
        self.adjust_score(id, if is_upvote { 1 } else { -1 }, now)
    }

    /// How many slips a draw can currently choose from.
    pub fn eligible_count(&self) -> (r: usize)
        ensures
            r as int == eligible_slips(self@).len(),
    {
        let mut count: usize = 0;
        let mut i: usize = 0;
        proof {
            assert(self@.take(0) =~= Seq::<Omikuji>::empty());
        }
        while i < self.slips.len()
            invariant
                i <= self@.len(),
                count <= i,
                count as int == eligible_slips(self@.take(i as int)).len(),
            decreases self@.len() - i,
        {
            proof {
                assert(self@.take(i + 1 as int).drop_last() =~= self@.take(i as int));
                assert(self@.take(i + 1 as int).last() == self@[i as int]);
            }
            if self.slips[i].vote_count > -3 {
                count = count + 1;
            }
            i = i + 1;
        }
        proof {
            assert(self@.take(self@.len() as int) =~= self@);
        }
        count
    }

    /// The slip a draw offset selects: the `r`-th eligible slip in ascending
    /// id order.
    pub fn eligible_at(&self, r: usize) -> (slip: Option<&Omikuji>)
        ensures
            match slip {
                Some(s) => (r as int) < eligible_slips(self@).len() && *s == eligible_slips(
                    self@,
                )[r as int],
                None => r as int >= eligible_slips(self@).len(),
            },
    {
        let mut seen: usize = 0;
        let mut i: usize = 0;
        proof {
            assert(self@.take(0) =~= Seq::<Omikuji>::empty());
        }
        while i < self.slips.len()
            invariant
                i <= self@.len(),
                seen <= i,
                seen as int == eligible_slips(self@.take(i as int)).len(),
                seen <= r,
            decreases self@.len() - i,
        {
            proof {
                assert(self@.take(i + 1 as int).drop_last() =~= self@.take(i as int));
                assert(self@.take(i + 1 as int).last() == self@[i as int]);
            }
            let eligible = self.slips[i].vote_count > -3;
            if eligible && seen == r {
                proof {
                    lemma_eligible_split(self@, i + 1 as int);
                    assert(eligible_slips(self@.take(i + 1 as int))[r as int] == self@[i as int]);
                }
                return Some(&self.slips[i]);
            }
            if eligible {
                seen = seen + 1;
            }
            i = i + 1;
        }
        proof {
            assert(self@.take(self@.len() as int) =~= self@);
        }
        None
    }

    /// Draw one slip uniformly at random among the eligible ones: none when
    /// none is eligible, otherwise the slip at a uniformly drawn offset of
    /// the eligible order.
    pub fn draw_random(&self) -> (r: Option<&Omikuji>)
        ensures
            match r {
                Some(slip) => exists|k: int|
                    0 <= k < eligible_slips(self@).len() && *slip == eligible_slips(self@)[k],
                None => eligible_slips(self@).len() == 0,
            },
    {
        let n = self.eligible_count();
        if n == 0 {
            return None;
        }
        let x = random_below(n as u64);
        match self.eligible_at(x as usize) {
            Some(slip) => Some(slip),
            None => None,
        }
    }
}

/// The eligible slips of a sequence split anywhere are the eligible slips of
/// the two parts, in order.
pub proof fn lemma_eligible_split(s: Seq<Omikuji>, i: int)
    requires
        0 <= i <= s.len(),
    ensures
        eligible_slips(s) == eligible_slips(s.take(i)) + eligible_slips(s.skip(i)),
    decreases s.len() - i,
{
    if i == s.len() {
        assert(s.take(i) =~= s);
        assert(s.skip(i) =~= Seq::<Omikuji>::empty());
        assert(eligible_slips(Seq::<Omikuji>::empty()) == Seq::<Omikuji>::empty());
        assert(eligible_slips(s) =~= eligible_slips(s.take(i)) + eligible_slips(s.skip(i)));
    } else {
        lemma_eligible_split(s.drop_last(), i);
        assert(s.drop_last().take(i) =~= s.take(i));
        assert(s.skip(i).drop_last() =~= s.drop_last().skip(i));
        assert(s.skip(i).last() == s.last());
        assert(s.skip(i).len() > 0);
        if slip_eligible(s.last()) {
            assert(eligible_slips(s) == eligible_slips(s.drop_last()).push(s.last()));
            assert(eligible_slips(s.skip(i)) == eligible_slips(s.drop_last().skip(i)).push(
                s.last(),
            ));
            assert(eligible_slips(s.take(i)) + eligible_slips(s.skip(i)) =~= eligible_slips(s));
        } else {
            assert(eligible_slips(s.take(i)) + eligible_slips(s.skip(i)) =~= eligible_slips(s));
        }
    }
}

/// Every eligible slip of the stored order is a stored slip, is above the
/// threshold, and conversely every stored slip above the threshold appears
/// in the eligible order: the draw filters by exactly the threshold.
pub proof fn lemma_eligible_members(s: Seq<Omikuji>)
    ensures
        forall|k: int|
            0 <= k < eligible_slips(s).len() ==> slip_eligible(#[trigger] eligible_slips(s)[k])
                && s.contains(eligible_slips(s)[k]),
        forall|x: Omikuji| s.contains(x) && slip_eligible(x) ==> eligible_slips(s).contains(x),
    decreases s.len(),
{
    if s.len() > 0 {
        lemma_eligible_members(s.drop_last());
        assert forall|k: int| 0 <= k < eligible_slips(s).len() implies slip_eligible(
            #[trigger] eligible_slips(s)[k],
        ) && s.contains(eligible_slips(s)[k]) by {
            if slip_eligible(s.last()) && k == eligible_slips(s).len() - 1 {
                assert(eligible_slips(s)[k] == s.last());
                assert(s[s.len() - 1] == s.last());
            } else {
                assert(eligible_slips(s)[k] == eligible_slips(s.drop_last())[k]);
                let j = choose|j: int|
                    0 <= j < s.drop_last().len() && s.drop_last()[j] == eligible_slips(
                        s.drop_last(),
                    )[k];
                assert(s[j] == eligible_slips(s)[k]);
            }
        }
        assert forall|x: Omikuji| s.contains(x) && slip_eligible(x) implies eligible_slips(
            s,
        ).contains(x) by {
            let j = choose|j: int| 0 <= j < s.len() && s[j] == x;
            if j == s.len() - 1 {
                assert(eligible_slips(s).last() == x);
            } else {
                assert(s.drop_last()[j] == x);
                assert(s.drop_last().contains(x));
                let k = choose|k: int|
                    0 <= k < eligible_slips(s.drop_last()).len() && eligible_slips(s.drop_last())[k]
                        == x;
                assert(eligible_slips(s)[k] == x);
            }
        }
    }
}

/// The eligible order keeps ids strictly ascending, so distinct draw offsets
/// select distinct slips: a uniform offset draw gives each eligible slip the
/// same one-in-count chance.
pub proof fn lemma_eligible_ascending(s: Seq<Omikuji>)
    requires
        ids_ascending(s),
    ensures
        ids_ascending(eligible_slips(s)),
    decreases s.len(),
{
    if s.len() > 0 {
        assert(ids_ascending(s.drop_last())) by {
            assert(forall|i: int|
                0 <= i < s.drop_last().len() ==> s.drop_last()[i] == (#[trigger] s[i]));
        }
        lemma_eligible_ascending(s.drop_last());
        lemma_eligible_members(s.drop_last());
        assert forall|i: int, j: int|
            0 <= i < j < eligible_slips(s).len() implies (#[trigger] eligible_slips(s)[i]).id < (
        #[trigger] eligible_slips(s)[j]).id by {
            if slip_eligible(s.last()) && j == eligible_slips(s).len() - 1 {
                assert(eligible_slips(s)[j] == s.last());
                assert(eligible_slips(s)[i] == eligible_slips(s.drop_last())[i]);
                let m = choose|m: int|
                    0 <= m < s.drop_last().len() && s.drop_last()[m] == eligible_slips(
                        s.drop_last(),
                    )[i];
                assert(s[m] == eligible_slips(s)[i]);
                assert(s[m].id < s[s.len() - 1].id);
            } else {
                assert(eligible_slips(s)[i] == eligible_slips(s.drop_last())[i]);
                assert(eligible_slips(s)[j] == eligible_slips(s.drop_last())[j]);
            }
        }
    }
}

/// Sequential ids are in particular strictly ascending.
pub proof fn lemma_sequential_ascending(s: Seq<Omikuji>)
    requires
        ids_sequential(s),
    ensures
        ids_ascending(s),
{
}

} // verus!
