//! Pending OAuth logins: each state value names the user and PDS that a
//! login was started for, and can be redeemed once.
use vstd::prelude::*;
use crate::text::str_eq;

verus! {

/// A login waiting for its callback: the user's DID and PDS URL.
pub struct PendingLogin {
    pub did: String,
    pub pds_url: String,
}

/// The plain content of a pending login.
pub open spec fn spec_login(l: PendingLogin) -> (Seq<char>, Seq<char>) {
    (l.did@, l.pds_url@)
}

struct Pending {
    state: String,
    login: PendingLogin,
}

/// The logins waiting for their callbacks, by state value.
pub struct OAuthStates {
    entries: Vec<Pending>,
}

impl OAuthStates {
    spec fn key(&self, i: int) -> Seq<char> {
        self.entries@[i].state@
    }

    /// No state value is stored twice.
    pub closed spec fn wf(&self) -> bool {
        forall|i: int, j: int|
            0 <= i < self.entries@.len() && 0 <= j < self.entries@.len() && i != j
                ==> #[trigger] self.key(i) != #[trigger] self.key(j)
    }

    spec fn holds(&self, s: Seq<char>) -> bool {
        exists|i: int| 0 <= i < self.entries@.len() && #[trigger] self.key(i) == s
    }

    spec fn index_of(&self, s: Seq<char>) -> int {
        choose|i: int| 0 <= i < self.entries@.len() && #[trigger] self.key(i) == s
    }

    /// The pending logins, by state value.
    pub closed spec fn view(&self) -> Map<Seq<char>, (Seq<char>, Seq<char>)> {
        Map::new(
            |s: Seq<char>| self.holds(s),
            |s: Seq<char>| spec_login(self.entries@[self.index_of(s)].login),
        )
    }

    proof fn lemma_entry(&self, i: int)
        requires
            self.wf(),
            0 <= i < self.entries@.len(),
        ensures
            self.view().dom().contains(self.key(i)),
            self.view()[self.key(i)] == spec_login(self.entries@[i].login),
    {
        assert(self.holds(self.key(i)));
        let j = self.index_of(self.key(i));
        assert(self.key(j) == self.key(i));
    }

    /// No pending login.
    pub fn new() -> (r: OAuthStates)
        ensures
            r.wf(),
            r.view() == Map::<Seq<char>, (Seq<char>, Seq<char>)>::empty(),
    {
        let r = OAuthStates { entries: Vec::new() };
        assert(r.view() =~= Map::<Seq<char>, (Seq<char>, Seq<char>)>::empty());
        r
    }

    fn find(&self, state: &str) -> (r: Option<usize>)
        requires
            self.wf(),
        ensures
            match r {
                Some(i) => i < self.entries@.len() && self.key(i as int) == state@,
                None => forall|i: int| 0 <= i < self.entries@.len() ==> self.key(i) != state@,
            },
    {
        let mut i: usize = 0;
        while i < self.entries.len()
            invariant
                i <= self.entries@.len(),
                forall|j: int| 0 <= j < i ==> self.key(j) != state@,
            decreases self.entries@.len() - i,
        {
            if str_eq(self.entries[i].state.as_str(), state) {
                return Some(i);
            }
            i = i + 1;
        }
        None
    }

    /// Records a login started with `state`, replacing any earlier one with
    /// the same state value.
    pub fn insert(&mut self, state: String, did: String, pds_url: String)
        requires
            old(self).wf(),
        ensures
            final(self).wf(),
            final(self).view() == old(self).view().insert(state@, (did@, pds_url@)),
    {
        let ghost old_view = self.view();
        let ghost k = state@;
        let ghost v = (did@, pds_url@);
        let ghost before = *self;
        let entry = Pending { state, login: PendingLogin { did, pds_url } };
        match self.find(entry.state.as_str()) {
            Some(i) => {
                self.entries.set(i, entry);
                proof {
                    assert forall|a: int, b: int|
                        0 <= a < self.entries@.len() && 0 <= b < self.entries@.len() && a != b
                        implies #[trigger] self.key(a) != #[trigger] self.key(b) by {
                        assert(before.key(a) != before.key(b));
                    }
                    assert forall|x: Seq<char>| #![auto] self.view().dom().contains(x)
                        == old_view.insert(k, v).dom().contains(x) by {
                        if self.holds(x) {
                            let a = self.index_of(x);
                            assert(before.key(a) == x);
                        }
                        if x != k && before.holds(x) {
                            let a = before.index_of(x);
                            assert(self.key(a) == x);
                        }
                        if x == k {
                            assert(self.key(i as int) == k);
                        }
                    }
                    assert forall|x: Seq<char>| #![auto] self.view().dom().contains(x)
                        implies self.view()[x] == old_view.insert(k, v)[x] by {
                        let a = self.index_of(x);
                        if x == k {
                            self.lemma_entry(i as int);
                        } else {
                            before.lemma_entry(a);
                            assert(a != i);
                        }
                    }
                    assert(self.view() =~= old_view.insert(k, v));
                }
            },
            None => {
                self.entries.push(entry);
                proof {
                    let n = before.entries@.len() as int;
                    assert forall|a: int| 0 <= a < n implies self.key(a) == before.key(a) by {}
                    assert(self.key(n) == k);
                    assert forall|a: int, b: int|
                        0 <= a < self.entries@.len() && 0 <= b < self.entries@.len() && a != b
                        implies #[trigger] self.key(a) != #[trigger] self.key(b) by {
                        if a < n && b < n {
                            assert(before.key(a) != before.key(b));
                        } else if a == n {
                            assert(self.key(b) == before.key(b));
                        } else {
                            assert(self.key(a) == before.key(a));
                        }
                    }
                    assert forall|x: Seq<char>| #![auto] self.view().dom().contains(x)
                        == old_view.insert(k, v).dom().contains(x) by {
                        if self.holds(x) {
                            let a = self.index_of(x);
                            if a < n {
                                assert(before.key(a) == x);
                            }
                        }
                        if before.holds(x) {
                            let a = before.index_of(x);
                            assert(self.key(a) == x);
                        }
                    }
                    assert forall|x: Seq<char>| #![auto] self.view().dom().contains(x)
                        implies self.view()[x] == old_view.insert(k, v)[x] by {
                        let a = self.index_of(x);
                        if x == k {
                            self.lemma_entry(n);
                        } else {
                            before.lemma_entry(a);
                        }
                    }
                    assert(self.view() =~= old_view.insert(k, v));
                }
            },
        }
    }

    /// Redeems `state`: the login it names, which is no longer pending; `None`
    /// where no login is pending under it.
    pub fn take(&mut self, state: &str) -> (r: Option<PendingLogin>)
        requires
            old(self).wf(),
        ensures
            final(self).wf(),
            match r {
                Some(l) => old(self).view().dom().contains(state@)
                    && old(self).view()[state@] == spec_login(l)
                    && final(self).view() == old(self).view().remove(state@),
                None => !old(self).view().dom().contains(state@) && final(self).view() == old(self).view(),
            },
    {
        let ghost old_view = self.view();
        match self.find(state) {
            None => {
                proof {
                    if old_view.dom().contains(state@) {
                        let a = self.index_of(state@);
                        assert(self.key(a) == state@);
                    }
                }
                None
            },
            Some(i) => {
                let ghost before = *self;
                proof {
                    before.lemma_entry(i as int);
                }
                let removed = self.entries.remove(i);
                proof {
                    let n = before.entries@.len() as int;
                    assert forall|a: int| 0 <= a < n - 1 implies self.key(a) == before.key(if a < i { a } else { a + 1 }) by {}
                    assert forall|a: int, b: int|
                        0 <= a < self.entries@.len() && 0 <= b < self.entries@.len() && a != b
                        implies #[trigger] self.key(a) != #[trigger] self.key(b) by {
                        let a2 = if a < i { a } else { a + 1 };
                        let b2 = if b < i { b } else { b + 1 };
                        assert(before.key(a2) != before.key(b2));
                    }
                    assert forall|x: Seq<char>| #![auto] self.view().dom().contains(x)
                        == old_view.remove(state@).dom().contains(x) by {
                        if self.holds(x) {
                            let a = self.index_of(x);
                            let a2 = if a < i { a } else { a + 1 };
                            assert(before.key(a2) == x);
                            assert(a2 != i);
                        }
                        if x != state@ && before.holds(x) {
                            let a = before.index_of(x);
                            assert(a != i);
                            let a1 = if a < i { a } else { a - 1 };
                            assert(self.key(a1) == x);
                        }
                    }
                    assert forall|x: Seq<char>| #![auto] self.view().dom().contains(x)
                        implies self.view()[x] == old_view.remove(state@)[x] by {
                        let a = self.index_of(x);
                        let a2 = if a < i { a } else { a + 1 };
                        before.lemma_entry(a2);
                    }
                    assert(self.view() =~= old_view.remove(state@));
                }
                Some(removed.login)
            },
        }
    }
}

} // verus!
