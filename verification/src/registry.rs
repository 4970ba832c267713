//! The session registry: a mapping from session identity to session.
//!
//! Keys are unique; insertion order carries no meaning, so the registry's
//! mathematical image is a map from identity to session model. The
//! registry itself is a plain data structure; callers serialize access
//! to it (the transport layer holds one instance behind a lock).

use vstd::prelude::*;

use crate::messages::GameStateSnapshot;
use crate::session::EngineReport;
use crate::session::GameSession;
use crate::session::SessionModel;
use crate::session::snapshot_of;
use crate::session::stepped_session;

verus! {

/// Holds when no two sessions share an identity.
pub open spec fn unique_ids(s: Seq<GameSession>) -> bool {
    forall|i: int, j: int| 0 <= i < j < s.len() ==> s[i].id@ != s[j].id@
}

/// The map a sequence of sessions stands for: each session keyed by its
/// identity, later entries shadowing earlier ones (with unique
/// identities nothing is shadowed).
pub open spec fn sessions_map(s: Seq<GameSession>) -> Map<Seq<char>, SessionModel>
    decreases s.len(),
{
    if s.len() == 0 {
        Map::empty()
    } else {
        sessions_map(s.drop_last()).insert(s.last().id@, s.last()@)
    }
}

/// A concurrency-agnostic store of live sessions, keyed by identity.
pub struct SessionRegistry {
    sessions: Vec<GameSession>,
}

impl View for SessionRegistry {
    type V = Map<Seq<char>, SessionModel>;

    closed spec fn view(&self) -> Map<Seq<char>, SessionModel> {
        sessions_map(self.sessions@)
    }
}

proof fn lemma_unique_prefix(s: Seq<GameSession>)
    requires
        unique_ids(s),
        s.len() > 0,
    ensures
        unique_ids(s.drop_last()),
{
    assert forall|i: int, j: int|
        0 <= i < j < s.drop_last().len() implies s.drop_last()[i].id@ != s.drop_last()[j].id@ by {
        assert(s.drop_last()[i] == s[i]);
        assert(s.drop_last()[j] == s[j]);
    }
}

/// An identity lies in the map exactly when some session carries it.
proof fn lemma_map_contains(s: Seq<GameSession>, k: Seq<char>)
    ensures
        sessions_map(s).contains_key(k) <==> (exists|i: int| 0 <= i < s.len() && s[i].id@ == k),
    decreases s.len(),
{
    if s.len() > 0 {
        let prefix = s.drop_last();
        lemma_map_contains(prefix, k);
        if s.last().id@ == k {
            assert(s[s.len() - 1].id@ == k);
        } else {
            if exists|i: int| 0 <= i < prefix.len() && prefix[i].id@ == k {
                let i = choose|i: int| 0 <= i < prefix.len() && prefix[i].id@ == k;
                assert(s[i].id@ == k);
            }
            if exists|i: int| 0 <= i < s.len() && s[i].id@ == k {
                let i = choose|i: int| 0 <= i < s.len() && s[i].id@ == k;
                assert(i != s.len() - 1);
                assert(prefix[i].id@ == k);
            }
        }
    }
}

/// With unique identities, the map carries each session at its identity.
proof fn lemma_map_index(s: Seq<GameSession>, i: int)
    requires
        unique_ids(s),
        0 <= i < s.len(),
    ensures
        sessions_map(s).contains_key(s[i].id@),
        sessions_map(s)[s[i].id@] == s[i]@,
    decreases s.len(),
{
    let prefix = s.drop_last();
    if i == s.len() - 1 {
    } else {
        lemma_unique_prefix(s);
        assert(prefix[i] == s[i]);
        lemma_map_index(prefix, i);
        assert(s[i].id@ != s.last().id@);
    }
}

/// Appending a session inserts it into the map at its identity.
proof fn lemma_map_push(s: Seq<GameSession>, x: GameSession)
    ensures
        sessions_map(s.push(x)) == sessions_map(s).insert(x.id@, x@),
{
    assert(s.push(x).drop_last() =~= s);
    assert(s.push(x).last() == x);
}

/// Taking a session out keeps the rest unique, and none of the rest
/// carries the removed identity.
proof fn lemma_unique_remove(s: Seq<GameSession>, i: int)
    requires
        unique_ids(s),
        0 <= i < s.len(),
    ensures
        unique_ids(s.remove(i)),
        forall|j: int| 0 <= j < s.remove(i).len() ==> s.remove(i)[j].id@ != s[i].id@,
{
    let t = s.remove(i);
    assert forall|p: int, q: int| 0 <= p < q < t.len() implies t[p].id@ != t[q].id@ by {
        assert(t[p] == (if p < i { s[p] } else { s[p + 1] }));
        assert(t[q] == (if q < i { s[q] } else { s[q + 1] }));
    }
    assert forall|j: int| 0 <= j < t.len() implies t[j].id@ != s[i].id@ by {
        assert(t[j] == (if j < i { s[j] } else { s[j + 1] }));
    }
}

/// Taking a session out removes its identity from the map.
proof fn lemma_map_remove(s: Seq<GameSession>, i: int)
    requires
        unique_ids(s),
        0 <= i < s.len(),
    ensures
        sessions_map(s.remove(i)) == sessions_map(s).remove(s[i].id@),
    decreases s.len(),
{
    let k = s[i].id@;
    let prefix = s.drop_last();
    lemma_unique_prefix(s);
    if i == s.len() - 1 {
        assert(s.remove(i) =~= prefix);
        lemma_map_contains(prefix, k);
        assert forall|j: int| 0 <= j < prefix.len() implies prefix[j].id@ != k by {
            assert(prefix[j] == s[j]);
        }
        assert(!sessions_map(prefix).contains_key(k));
        assert(sessions_map(prefix) =~= sessions_map(prefix).insert(k, s.last()@).remove(k));
    } else {
        assert(prefix[i] == s[i]);
        lemma_map_remove(prefix, i);
        let t = s.remove(i);
        assert(t.len() == s.len() - 1);
        assert(t.drop_last() =~= prefix.remove(i));
        assert(t.last() == s.last());
        assert(sessions_map(t) == sessions_map(prefix.remove(i)).insert(s.last().id@, s.last()@));
        assert(k != s.last().id@);
        assert(sessions_map(prefix).remove(k).insert(s.last().id@, s.last()@)
            =~= sessions_map(prefix).insert(s.last().id@, s.last()@).remove(k));
    }
}

impl SessionRegistry {
    /// Holds when the registry's sessions carry pairwise distinct
    /// identities. Constructors establish it; every method preserves it.
    pub closed spec fn wf(&self) -> bool {
        unique_ids(self.sessions@)
    }

    /// An empty registry.
    pub fn new() -> (r: SessionRegistry)
        ensures
            r.wf(),
            r@ == Map::<Seq<char>, SessionModel>::empty(),
    {
        SessionRegistry { sessions: Vec::new() }
    }

    /// The index of the session carrying `id`, if one does.
    fn find_index(&self, id: &String) -> (r: Option<usize>)
        ensures
            match r {
                Option::Some(i) => i < self.sessions@.len() && self.sessions@[i as int].id@ == id@,
                Option::None => forall|j: int|
                    0 <= j < self.sessions@.len() ==> self.sessions@[j].id@ != id@,
            },
    {
        let n = self.sessions.len();
        let mut i: usize = 0;
        while i < n
            invariant
                n == self.sessions@.len(),
                i <= n,
                forall|j: int| 0 <= j < i ==> self.sessions@[j].id@ != id@,
            decreases n - i,
        {
            if self.sessions[i].id == *id {
                return Option::Some(i);
            }
            i = i + 1;
        }
        Option::None
    }

    /// Whether a session with this identity is live.
    pub fn contains(&self, id: &String) -> (r: bool)
        requires
            self.wf(),
        ensures
            r == self@.contains_key(id@),
    {
        proof {
            lemma_map_contains(self.sessions@, id@);
        }
        match self.find_index(id) {
            Option::Some(_) => true,
            Option::None => false,
        }
    }

    /// Stores a session at its identity, replacing any session that
    /// already carried it.
    pub fn insert(&mut self, session: GameSession)
        requires
            old(self).wf(),
        ensures
            final(self).wf(),
            final(self)@ == old(self)@.insert(session.id@, session@),
    {
        let ghost pre = self.sessions@;
        let ghost sessv = session;
        match self.find_index(&session.id) {
            Option::Some(i) => {
                self.sessions.remove(i);
                let ghost mid = self.sessions@;
                self.sessions.push(session);
                proof {
                    lemma_map_remove(pre, i as int);
                    lemma_unique_remove(pre, i as int);
                    lemma_map_push(mid, sessv);
                    assert forall|p: int, q: int|
                        0 <= p < q < self.sessions@.len()
                        implies self.sessions@[p].id@ != self.sessions@[q].id@ by {
                        if q < mid.len() {
                            assert(pre.remove(i as int)[p].id@ != pre[i as int].id@);
                            assert(pre.remove(i as int)[q].id@ != pre[i as int].id@);
                            assert(mid[p] == (if p < i { pre[p] } else { pre[p + 1] }));
                            assert(mid[q] == (if q < i { pre[q] } else { pre[q + 1] }));
                        } else {
                            assert(pre.remove(i as int)[p].id@ != pre[i as int].id@);
                            assert(self.sessions@[q] == sessv);
                        }
                    }
                    assert(self@ =~= old(self)@.insert(sessv.id@, sessv@));
                }
            },
            Option::None => {
                let ghost mid = self.sessions@;
                self.sessions.push(session);
                proof {
                    lemma_map_contains(pre, sessv.id@);
                    lemma_map_push(mid, sessv);
                    assert forall|p: int, q: int|
                        0 <= p < q < self.sessions@.len()
                        implies self.sessions@[p].id@ != self.sessions@[q].id@ by {
                        if q < mid.len() {
                            assert(mid[p] == pre[p]);
                            assert(mid[q] == pre[q]);
                        } else {
                            assert(mid[p] == pre[p]);
                            assert(self.sessions@[q] == sessv);
                        }
                    }
                    assert(self@ =~= old(self)@.insert(sessv.id@, sessv@));
                }
            },
        }
    }

    /// Grants read access to the session carrying `id`, if one is live.
    pub fn get(&self, id: &String) -> (r: Option<&GameSession>)
        requires
            self.wf(),
        ensures
            match r {
                Option::Some(s) => self@.contains_key(id@) && s@ == self@[id@],
                Option::None => !self@.contains_key(id@),
            },
    {
        proof {
            lemma_map_contains(self.sessions@, id@);
        }
        match self.find_index(id) {
            Option::Some(i) => {
                proof {
                    lemma_map_index(self.sessions@, i as int);
                }
                Option::Some(&self.sessions[i])
            },
            Option::None => Option::None,
        }
    }

    /// Removes the session carrying `id`, reporting whether one was live.
    pub fn remove(&mut self, id: &String) -> (was: bool)
        requires
            old(self).wf(),
        ensures
            final(self).wf(),
            was == old(self)@.contains_key(id@),
            final(self)@ == old(self)@.remove(id@),
            !was ==> final(self)@ == old(self)@,
    {
        let ghost pre = self.sessions@;
        proof {
            lemma_map_contains(pre, id@);
        }
        match self.find_index(id) {
            Option::Some(i) => {
                self.sessions.remove(i);
                proof {
                    lemma_map_remove(pre, i as int);
                    lemma_unique_remove(pre, i as int);
                }
                true
            },
            Option::None => {
                proof {
                    assert(old(self)@ =~= old(self)@.remove(id@));
                }
                false
            },
        }
    }

    /// Advances the session carrying `id` by `steps` ticks with the
    /// engine's report, and renders its fresh snapshot; reports `None`,
    /// with the registry untouched, when no session carries `id`.
    pub fn step_session(&mut self, id: &String, steps: u32, report: EngineReport) -> (r: Option<
        GameStateSnapshot,
    >)
        requires
            old(self).wf(),
        ensures
            final(self).wf(),
            match r {
                Option::Some(snap) => old(self)@.contains_key(id@) && final(self)@ == old(self)@
                    .insert(id@, stepped_session(old(self)@[id@], steps, report@)) && snap@
                    == snapshot_of(stepped_session(old(self)@[id@], steps, report@)),
                Option::None => !old(self)@.contains_key(id@) && final(self)@ == old(self)@,
            },
    {
        let ghost pre = self.sessions@;
        proof {
            lemma_map_contains(pre, id@);
        }
        match self.find_index(id) {
            Option::Some(i) => {
                proof {
                    lemma_map_index(pre, i as int);
                }
                let mut sess = self.sessions.remove(i);
                proof {
                    lemma_map_remove(pre, i as int);
                    lemma_unique_remove(pre, i as int);
                }
                sess.step(steps, report);
                let snap = sess.get_snapshot();
                let ghost sessv = sess;
                let ghost mid = self.sessions@;
                self.sessions.push(sess);
                proof {
                    lemma_map_push(mid, sessv);
                    assert(sessv.id@ == id@);
                    assert forall|p: int, q: int|
                        0 <= p < q < self.sessions@.len()
                        implies self.sessions@[p].id@ != self.sessions@[q].id@ by {
                        if q < mid.len() {
                            assert(pre.remove(i as int)[p].id@ != pre[i as int].id@);
                            assert(pre.remove(i as int)[q].id@ != pre[i as int].id@);
                            assert(mid[p] == (if p < i { pre[p] } else { pre[p + 1] }));
                            assert(mid[q] == (if q < i { pre[q] } else { pre[q + 1] }));
                        } else {
                            assert(pre.remove(i as int)[p].id@ != pre[i as int].id@);
                            assert(self.sessions@[q] == sessv);
                        }
                    }
                    assert(self@ =~= old(self)@.insert(
                        id@,
                        stepped_session(old(self)@[id@], steps, report@),
                    ));
                }
                Option::Some(snap)
            },
            Option::None => Option::None,
        }
    }
}

} // verus!
