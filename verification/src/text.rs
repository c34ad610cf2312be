//! Message-text handling: a message is split on single spaces, the first
//! token is the command name, and the remaining tokens are a command's
//! arguments. Splitting is on the space character alone, and empty tokens
//! are kept, so two spaces in a row yield an empty token between them.

use vstd::prelude::*;

verus! {

/// The tokens of `s`, split on `' '`. There is always at least one token;
/// empty tokens are kept.
pub open spec fn split_spaces(s: Seq<char>) -> Seq<Seq<char>>
    decreases s.len(),
{
    if s.len() == 0 {
        seq![Seq::<char>::empty()]
    } else if s[0] == ' ' {
        seq![Seq::<char>::empty()] + split_spaces(s.skip(1))
    } else {
        let rest = split_spaces(s.skip(1));
        rest.update(0, seq![s[0]] + rest[0])
    }
}

/// The command token of a message: everything before the first space.
pub open spec fn spec_first_token(s: Seq<char>) -> Seq<char> {
    split_spaces(s)[0]
}

/// The arguments of a message: every token after the first.
pub open spec fn spec_args(s: Seq<char>) -> Seq<Seq<char>> {
    split_spaces(s).skip(1)
}

pub proof fn lemma_split_spaces_len(s: Seq<char>)
    ensures
        split_spaces(s).len() >= 1,
    decreases s.len(),
{
    if s.len() == 0 {
    } else if s[0] == ' ' {
        lemma_split_spaces_len(s.skip(1));
    } else {
        lemma_split_spaces_len(s.skip(1));
    }
}

/// Where the first space of `s` stands at `i` (or `s` has none and `i` is its
/// length), the first token is `s.take(i)` and the rest of the split is the
/// split of what follows that space.
pub proof fn lemma_split_spaces_head(s: Seq<char>, i: int)
    requires
        0 <= i <= s.len(),
        forall|j: int| 0 <= j < i ==> s[j] != ' ',
        i == s.len() || s[i] == ' ',
    ensures
        i < s.len() ==> split_spaces(s) =~= seq![s.take(i)] + split_spaces(s.skip(i + 1)),
        i == s.len() ==> split_spaces(s) =~= seq![s],
    decreases i,
{
    lemma_split_spaces_len(s.skip(1));
    if i == 0 {
        if s.len() == 0 {
            assert(s =~= Seq::<char>::empty());
            assert(split_spaces(s) =~= seq![s]);
        } else {
            assert(s[0] == ' ');
            assert(s.take(0) =~= Seq::<char>::empty());
        }
    } else {
        assert(s[0] != ' ');
        let t = s.skip(1);
        lemma_split_spaces_head(t, i - 1);
        lemma_split_spaces_len(t.skip(i));
        if i < s.len() {
            assert(t.skip(i) =~= s.skip(i + 1));
            assert(seq![s[0]] + t.take(i - 1) =~= s.take(i));
            assert(split_spaces(s) =~= seq![s.take(i)] + split_spaces(s.skip(i + 1)));
        } else {
            assert(seq![s[0]] + t =~= s);
            assert(split_spaces(s) =~= seq![s]);
        }
    }
}

/// Index of the first space of `text` at or after `from`, or the length of
/// `text` where no space follows.
fn find_space(text: &str, from: usize) -> (i: usize)
    requires
        from <= text@.len(),
    ensures
        from <= i <= text@.len(),
        forall|j: int| from <= j < i ==> text@[j] != ' ',
        i < text@.len() ==> text@[i as int] == ' ',
{
    let n = text.unicode_len();
    let mut i = from;
    while i < n
        invariant
            from <= i <= n,
            n == text@.len(),
            forall|j: int| from <= j < i ==> text@[j] != ' ',
        decreases n - i,
    {
        if text.get_char(i) == ' ' {
            return i;
        }
        i = i + 1;
    }
    i
}

/// The command token of a message: everything before the first space, the
/// whole message where it has none.
pub fn first_token(text: &str) -> (tok: String)
    ensures
        tok@ == spec_first_token(text@),
{
    let i = find_space(text, 0);
    let tok = text.substring_char(0, i);
    proof {
        lemma_split_spaces_head(text@, i as int);
        assert(text@.subrange(0, i as int) =~= text@.take(i as int));
        if i == text@.len() {
            assert(text@.take(i as int) =~= text@);
        }
    }
    tok.to_owned()
}

/// All tokens of a message, in order.
pub fn split_tokens(text: &str) -> (toks: Vec<String>)
    ensures
        toks.deep_view() == split_spaces(text@),
{
    let n = text.unicode_len();
    let mut toks: Vec<String> = Vec::new();
    let mut p: usize = 0;
    proof {
        assert(text@.skip(0) =~= text@);
        assert(toks.deep_view() =~= Seq::<Seq<char>>::empty());
        assert(toks.deep_view() + split_spaces(text@) =~= split_spaces(text@));
    }
    loop
        invariant
            p <= n,
            n == text@.len(),
            toks.deep_view() + split_spaces(text@.skip(p as int)) =~= split_spaces(text@),
        decreases n - p,
    {
        let ghost pre = toks.deep_view();
        let ghost rem = text@.skip(p as int);
        let i = find_space(text, p);
        let tok = text.substring_char(p, i);
        proof {
            assert(forall|j: int| 0 <= j < i - p ==> rem[j] != ' ');
            lemma_split_spaces_head(rem, i - p);
            assert(tok@ =~= rem.take(i - p));
        }
        toks.push(tok.to_owned());
        proof {
            assert(toks.deep_view() =~= pre.push(rem.take(i - p)));
        }
        if i == n {
            proof {
                assert(rem.take(i - p) =~= rem);
                assert(split_spaces(rem) =~= seq![rem]);
                assert(toks.deep_view() =~= pre + split_spaces(rem));
                assert(toks.deep_view() =~= split_spaces(text@));
            }
            return toks;
        }
        proof {
            assert(rem.skip(i - p + 1) =~= text@.skip(i + 1));
            assert(pre.push(rem.take(i - p)) + split_spaces(text@.skip(i + 1)) =~= pre + (seq![
                rem.take(i - p),
            ] + split_spaces(rem.skip(i - p + 1))));
            assert(toks.deep_view() + split_spaces(text@.skip(i + 1)) =~= split_spaces(text@));
        }
        p = i + 1;
    }
}

/// The arguments of a message: every token after the first, in order.
pub fn message_args(text: &str) -> (args: Vec<String>)
    ensures
        args.deep_view() == spec_args(text@),
{
    let mut toks = split_tokens(text);
    let ghost all = toks.deep_view();
    proof {
        lemma_split_spaces_len(text@);
    }
    toks.remove(0);
    proof {
        assert(toks.deep_view() =~= all.skip(1));
    }
    toks
}

} // verus!
