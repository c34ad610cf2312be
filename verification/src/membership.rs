//! The membership tracker: the set of identities seen since startup and the
//! set of permitted identities. Both are seeded once at startup; during the
//! run the permission set is read-only and the seen set only grows, one
//! identity at a time, the first time that identity sends a message.

use vstd::prelude::*;

verus! {

/// The two identity sets the dispatcher consults on every message.
pub struct Membership {
    chatters: Vec<String>,
    vip: Vec<String>,
}

/// Whether `needle` stands in `haystack`, by exact string match.
fn vec_contains(haystack: &Vec<String>, needle: &String) -> (b: bool)
    ensures
        b == haystack.deep_view().to_set().contains(needle@),
{
    let n = haystack.len();
    let mut i: usize = 0;
    while i < n
        invariant
            i <= n,
            n == haystack.len(),
            forall|j: int| 0 <= j < i ==> haystack.deep_view()[j] != needle@,
        decreases n - i,
    {
        if haystack[i] == *needle {
            proof {
                assert(haystack.deep_view()[i as int] == needle@);
                assert(haystack.deep_view().contains(needle@));
            }
            return true;
        }
        i = i + 1;
    }
    proof {
        assert(!haystack.deep_view().contains(needle@));
    }
    false
}

impl Membership {
    /// The identities seen since startup, as a set.
    pub closed spec fn seen(&self) -> Set<Seq<char>> {
        self.chatters.deep_view().to_set()
    }

    /// The permitted identities, as a set.
    pub closed spec fn permitted(&self) -> Set<Seq<char>> {
        self.vip.deep_view().to_set()
    }

    /// A tracker with both sets empty.
    pub fn new() -> (m: Membership)
        ensures
            m.seen() == Set::<Seq<char>>::empty(),
            m.permitted() == Set::<Seq<char>>::empty(),
    {
        let m = Membership { chatters: Vec::new(), vip: Vec::new() };
        proof {
            assert(m.seen() =~= Set::<Seq<char>>::empty());
            assert(m.permitted() =~= Set::<Seq<char>>::empty());
        }
        m
    }

    /// Adds `who` to the permission set; part of the startup seeding.
    pub fn permit(&mut self, who: String)
        ensures
            final(self).permitted() == old(self).permitted().insert(who@),
            final(self).seen() == old(self).seen(),
    {
        let ghost pre = self.vip.deep_view();
        self.vip.push(who);
        proof {
            assert(self.vip.deep_view() =~= pre.push(who@));
            pre.lemma_push_to_set_commute(who@);
        }
    }

    /// Marks `who` as already seen; part of the startup seeding, for names
    /// that should not count as new chatters.
    pub fn mark_seen(&mut self, who: String)
        ensures
            final(self).seen() == old(self).seen().insert(who@),
            final(self).permitted() == old(self).permitted(),
    {
        let ghost pre = self.chatters.deep_view();
        self.chatters.push(who);
        proof {
            assert(self.chatters.deep_view() =~= pre.push(who@));
            pre.lemma_push_to_set_commute(who@);
        }
    }

    /// Pure membership check against the permission set; mutates nothing.
    pub fn is_permitted(&self, who: &String) -> (b: bool)
        ensures
            b == self.permitted().contains(who@),
    {
        vec_contains(&self.vip, who)
    }

    /// Records `who` as seen. Returns true exactly when this is the first
    /// observation of `who`; the single source of truth for "new chatter".
    pub fn note_seen(&mut self, who: &String) -> (first: bool)
        ensures
            first == !old(self).seen().contains(who@),
            final(self).seen() == old(self).seen().insert(who@),
            final(self).permitted() == old(self).permitted(),
    {
        if vec_contains(&self.chatters, who) {
            proof {
                assert(self.seen() =~= self.seen().insert(who@));
            }
            false
        } else {
            let ghost pre = self.chatters.deep_view();
            self.chatters.push(who.clone());
            proof {
                assert(self.chatters.deep_view() =~= pre.push(who@));
                pre.lemma_push_to_set_commute(who@);
            }
            true
        }
    }
}

/// `note_seen` reports a chatter as new exactly once: where `who` is not yet
/// in the seen set, a first call returns true and leaves `who` seen, so a
/// second call, and every later one, returns false and changes nothing.
pub proof fn lemma_note_seen_once(m0: Membership, m1: Membership, m2: Membership, who: Seq<char>)
    requires
        !m0.seen().contains(who),
        m1.seen() == m0.seen().insert(who),
        m2.seen() == m1.seen().insert(who),
    ensures
        !m0.seen().contains(who) == true,
        !m1.seen().contains(who) == false,
        m2.seen() == m1.seen(),
{
    assert(m1.seen().insert(who) =~= m1.seen());
}

} // verus!
