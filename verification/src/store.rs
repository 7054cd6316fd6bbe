//! The session store: at most one in-progress draft per user identity. It is
//! memory-resident and makes no durability promise; a draft lives here from
//! the explicit "start new" action until it is cancelled or committed.

use vstd::prelude::*;

use std::collections::HashMap;

use crate::models::OmikujiMessage;
use crate::models::draft_inv;
use crate::models::empty_draft;

verus! {

/// Holds the draft each identity is working on, keyed by identity. The map
/// itself guarantees at most one draft per identity.
pub struct SessionStore {
    drafts: HashMap<i64, OmikujiMessage>,
}

impl View for SessionStore {
    type V = Map<i64, OmikujiMessage>;

    closed spec fn view(&self) -> Map<i64, OmikujiMessage> {
        self.drafts@
    }
}

impl SessionStore {
    /// Every stored draft is well formed.
    pub open spec fn wf(&self) -> bool {
        forall|id: i64| self@.contains_key(id) ==> draft_inv((#[trigger] self@[id])@)
    }

    /// An empty store, constructed once at process start.
    pub fn new() -> (r: SessionStore)
        ensures
            r@ == Map::<i64, OmikujiMessage>::empty(),
            r.wf(),
    {
        SessionStore { drafts: HashMap::new() }
    }

    /// Whether an identity has a draft in progress.
    pub fn contains(&self, id: i64) -> (r: bool)
        ensures
            r == self@.contains_key(id),
    {
        self.drafts.contains_key(&id)
    }

    /// Borrow the draft of an identity, if any.
    pub fn read(&self, id: i64) -> (r: Option<&OmikujiMessage>)
        ensures
            match r {
                Some(m) => self@.contains_key(id) && *m == self@[id],
                None => !self@.contains_key(id),
            },
    {
        self.drafts.get(&id)
    }

    /// Start a draft for an identity that has none; refuse, changing
    /// nothing, if one already exists. At most one draft per identity can
    /// ever exist, and a started draft is empty.
    pub fn create(&mut self, id: i64) -> (r: bool)
        ensures
            r == !old(self)@.contains_key(id),
            !r ==> final(self)@ == old(self)@,
            r ==> final(self)@.contains_key(id) && final(self)@[id]@ == empty_draft(),
            r ==> final(self)@.remove(id) == old(self)@,
            old(self).wf() ==> final(self).wf(),
    {
        if self.drafts.contains_key(&id) {
            return false;
        }
        let m = OmikujiMessage::empty();
        self.drafts.insert(id, m);
        proof {
            assert(final(self)@.remove(id) =~= old(self)@);
        }
        true
    }

    /// Remove and hand out the draft of an identity, if any.
    pub fn take(&mut self, id: i64) -> (r: Option<OmikujiMessage>)
        ensures
            match r {
                Some(m) => old(self)@.contains_key(id) && m == old(self)@[id] && final(self)@
                    == old(self)@.remove(id),
                None => !old(self)@.contains_key(id) && final(self)@ == old(self)@,
            },
            old(self).wf() ==> final(self).wf(),
    {
        let r = self.drafts.remove(&id);
        proof {
            if r is None {
                assert(final(self)@ =~= old(self)@);
            }
        }
        r
    }

    /// Put a draft back for an identity, replacing any draft it had.
    pub fn put(&mut self, id: i64, m: OmikujiMessage)
        ensures
            final(self)@ == old(self)@.insert(id, m),
            old(self).wf() && draft_inv(m@) ==> final(self).wf(),
    {
        self.drafts.insert(id, m);
        proof {
            if old(self).wf() && draft_inv(m@) {
                assert forall|k: i64| self@.contains_key(k) implies draft_inv(
                    (#[trigger] self@[k])@,
                ) by {
                    if k != id {
                        assert(self@[k] == old(self)@[k]);
                    }
                }
            }
        }
    }

    /// Drop the draft of an identity; a no-op if there is none.
    pub fn delete(&mut self, id: i64)
        ensures
            final(self)@ == old(self)@.remove(id),
            old(self).wf() ==> final(self).wf(),
    {
        let _ = self.drafts.remove(&id);
        proof {
            if !old(self)@.contains_key(id) {
                assert(final(self)@ =~= old(self)@.remove(id));
            }
        }
    }
}

} // verus!
