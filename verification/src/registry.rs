//! The command registry: a mapping from command name to handler, built once
//! at startup through a builder-style registration call and read-only during
//! the run. A name is bound to at most one handler; registering a name again
//! replaces the earlier binding.

use vstd::prelude::*;

verus! {

/// A unit of behaviour that a command name can be bound to. The effects each
/// handler produces when invoked are given in the dispatch module.
#[derive(Clone, Copy, PartialEq, Eq, Structural, Debug)]
pub enum Handler {
    /// Play the raid notification.
    Raid,
    /// Play the follow notification.
    Follow,
    /// Play the host notification.
    Host,
    /// Append the message's arguments to the song-request queue.
    SongRequest,
    /// Reply with the elapsed run time.
    Uptime,
    /// Reply with a farewell, then signal the loop to stop.
    Quit,
}

/// The mapping that a list of bindings stands for; a later binding for the
/// same name wins.
pub open spec fn bindings_map(s: Seq<(String, Handler)>) -> Map<Seq<char>, Handler>
    decreases s.len(),
{
    if s.len() == 0 {
        Map::empty()
    } else {
        bindings_map(s.drop_last()).insert(s.last().0@, s.last().1)
    }
}

/// The command registry. Its view is the map from command name to handler.
pub struct Registry {
    bindings: Vec<(String, Handler)>,
}

impl View for Registry {
    type V = Map<Seq<char>, Handler>;

    closed spec fn view(&self) -> Map<Seq<char>, Handler> {
        bindings_map(self.bindings@)
    }
}

/// No name is bound twice in the underlying list.
impl Registry {
    pub closed spec fn wf(&self) -> bool {
        forall|i: int, j: int|
            0 <= i < j < self.bindings@.len() ==> self.bindings@[i].0@ != self.bindings@[j].0@
    }

    /// An empty registry: no command is recognised.
    pub fn new() -> (r: Registry)
        ensures
            r@ == Map::<Seq<char>, Handler>::empty(),
            r.wf(),
    {
        Registry { bindings: Vec::new() }
    }

    /// Binds `name` to `h`, replacing any earlier binding for `name`.
    pub fn register(&mut self, name: String, h: Handler)
        requires
            old(self).wf(),
        ensures
            final(self).wf(),
            final(self)@ == old(self)@.insert(name@, h),
    {
        let ghost pre = self.bindings@;
        let n = self.bindings.len();
        let mut i: usize = 0;
        while i < n
            invariant
                i <= n,
                n == self.bindings@.len(),
                self.bindings@ == pre,
                old(self).bindings@ == pre,
                forall|a: int, b: int| 0 <= a < b < pre.len() ==> pre[a].0@ != pre[b].0@,
                forall|j: int| 0 <= j < i ==> self.bindings@[j].0@ != name@,
            decreases n - i,
        {
            if self.bindings[i].0 == name {
                let pair = (name, h);
                let ghost newp = pair;
                self.bindings.set(i, pair);
                proof {
                    assert(forall|j: int| i < j < pre.len() ==> pre[j].0@ != pre[i as int].0@);
                    lemma_bindings_map_update(pre, i as int, newp);
                }
                return ;
            }
            i = i + 1;
        }
        self.bindings.push((name, h));
        proof {
            assert(self.bindings@.drop_last() =~= pre);
        }
    }

    /// Builder form of `register`, for fluent construction at startup.
    pub fn with_action(self, name: String, h: Handler) -> (r: Registry)
        requires
            self.wf(),
        ensures
            r.wf(),
            r@ == self@.insert(name@, h),
    {
        let mut r = self;
        r.register(name, h);
        r
    }

    /// Exact-match lookup of a command name; `None` means "not a recognised
    /// command" and is not an error.
    pub fn lookup(&self, token: &String) -> (res: Option<Handler>)
        requires
            self.wf(),
        ensures
            match res {
                Some(h) => self@.contains_key(token@) && self@[token@] == h,
                None => !self@.contains_key(token@),
            },
    {
        let n = self.bindings.len();
        let mut i: usize = 0;
        while i < n
            invariant
                i <= n,
                n == self.bindings@.len(),
                self.wf(),
                forall|j: int| 0 <= j < i ==> self.bindings@[j].0@ != token@,
            decreases n - i,
        {
            if self.bindings[i].0 == *token {
                proof {
                    lemma_bindings_map_present(self.bindings@, i as int);
                }
                return Some(self.bindings[i].1);
            }
            i = i + 1;
        }
        proof {
            lemma_bindings_map_absent(self.bindings@, token@);
        }
        None
    }
}

/// Replacing the binding at `i` in place changes the map exactly as an
/// insert of the new binding does, provided no later binding has that name.
proof fn lemma_bindings_map_update(s: Seq<(String, Handler)>, i: int, p: (String, Handler))
    requires
        0 <= i < s.len(),
        s[i].0@ == p.0@,
        forall|j: int| i < j < s.len() ==> s[j].0@ != p.0@,
    ensures
        bindings_map(s.update(i, p)) == bindings_map(s).insert(p.0@, p.1),
    decreases s.len(),
{
    let t = s.update(i, p);
    if i == s.len() - 1 {
        assert(t.drop_last() =~= s.drop_last());
        assert(t.last() == p);
    } else {
        lemma_bindings_map_update(s.drop_last(), i, p);
        assert(t.drop_last() =~= s.drop_last().update(i, p));
        assert(t.last() == s.last());
        assert(s.last().0@ != p.0@);
        assert(bindings_map(s.drop_last()).insert(p.0@, p.1).insert(s.last().0@, s.last().1)
            =~= bindings_map(s.drop_last()).insert(s.last().0@, s.last().1).insert(p.0@, p.1));
    }
}

/// A binding whose name no later binding repeats is what the map holds for
/// that name.
proof fn lemma_bindings_map_present(s: Seq<(String, Handler)>, i: int)
    requires
        0 <= i < s.len(),
        forall|j: int| i < j < s.len() ==> s[j].0@ != s[i].0@,
    ensures
        bindings_map(s).contains_key(s[i].0@),
        bindings_map(s)[s[i].0@] == s[i].1,
    decreases s.len(),
{
    if i < s.len() - 1 {
        lemma_bindings_map_present(s.drop_last(), i);
    }
}

/// Registering the same command name twice replaces the prior handler: the
/// registry's map is as if only the later registration had happened, so a
/// lookup of the name can only ever yield the later handler.
pub proof fn lemma_register_replaces(
    m: Map<Seq<char>, Handler>,
    name: Seq<char>,
    h1: Handler,
    h2: Handler,
)
    ensures
        m.insert(name, h1).insert(name, h2) == m.insert(name, h2),
        m.insert(name, h1).insert(name, h2)[name] == h2,
{
    assert(m.insert(name, h1).insert(name, h2) =~= m.insert(name, h2));
}

/// A name that no binding carries is not in the map.
proof fn lemma_bindings_map_absent(s: Seq<(String, Handler)>, name: Seq<char>)
    requires
        forall|j: int| 0 <= j < s.len() ==> s[j].0@ != name,
    ensures
        !bindings_map(s).contains_key(name),
    decreases s.len(),
{
    if s.len() > 0 {
        lemma_bindings_map_absent(s.drop_last(), name);
    }
}

} // verus!
