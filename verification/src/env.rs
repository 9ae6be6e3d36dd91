//! The bot's configuration.
use vstd::prelude::*;

use crate::api::user_texts;
use crate::ids::UserId;
use crate::text::{chars_to_string, is_whitespace, scan, span, str_chars, CharClass};

verus! {

/// The configuration: session tokens, host, workspace, the bot's own user,
/// and users to ignore.
#[derive(Debug)]
pub struct Env {
    pub xoxc: String,
    pub sub_xoxc: Option<String>,
    pub xoxd: String,
    pub host: String,
    pub team_id: String,
    pub user_id: UserId,
    pub ignore_list: Vec<UserId>,
}

/// Number of whitespace characters at the end of `s`.
pub open spec fn trailing_ws(s: Seq<char>) -> nat
    decreases s.len(),
{
    if s.len() == 0 || !is_whitespace(s.last()) {
        0
    } else {
        1 + trailing_ws(s.drop_last())
    }
}

/// `s` without leading and trailing whitespace (`str::trim`).
pub open spec fn trim(s: Seq<char>) -> Seq<char> {
    let t = s.skip(span(s, CharClass::Whitespace.pred()) as int);
    t.take(t.len() - trailing_ws(t))
}

/// The pieces of `s` between commas (`str::split(",")`): one more piece
/// than there are commas, empty pieces included.
pub open spec fn split_commas(s: Seq<char>) -> Seq<Seq<char>>
    decreases s.len(),
{
    let i = span(s, CharClass::NotComma.pred());
    if i >= s.len() {
        seq![s]
    } else {
        seq![s.take(i as int)] + split_commas(s.skip(i + 1int))
    }
}

/// The trimmed pieces of a comma-separated list.
pub open spec fn ignore_list_of(s: Seq<char>) -> Seq<Seq<char>> {
    split_commas(s).map_values(|p: Seq<char>| trim(p))
}

proof fn lemma_trailing_is(s: Seq<char>, n: nat)
    requires
        n <= s.len(),
        forall|i: int| s.len() - n <= i < s.len() ==> is_whitespace(#[trigger] s[i]),
        n < s.len() ==> !is_whitespace(s[s.len() - n - 1]),
    ensures
        trailing_ws(s) == n,
    decreases n,
{
    if n > 0 {
        let t = s.drop_last();
        assert forall|i: int| t.len() - (n - 1) <= i < t.len() implies is_whitespace(
            #[trigger] t[i],
        ) by {
            assert(t[i] == s[i]);
        }
        if n - 1 < t.len() {
            assert(t[t.len() - (n - 1) - 1] == s[s.len() - n - 1]);
        }
        assert(is_whitespace(s.last()));
        lemma_trailing_is(t, (n - 1) as nat);
    } else {
        if s.len() > 0 {
            assert(s.last() == s[s.len() - 1]);
        }
    }
}

/// The trimmed text of `v[from..to]`.
fn trim_range(v: &Vec<char>, from: usize, to: usize) -> (r: String)
    requires
        from <= to <= v.len(),
    ensures
        r@ == trim(v@.subrange(from as int, to as int)),
{
    let ghost s = v@.subrange(from as int, to as int);
    let ghost w = v@.take(to as int);
    let wv: Vec<char> = {
        let mut wv: Vec<char> = Vec::new();
        let mut k: usize = 0;
        while k < to
            invariant
                k <= to <= v.len(),
                wv@ == v@.take(k as int),
            decreases to - k,
        {
            wv.push(v[k]);
            k = k + 1;
            assert(wv@ =~= v@.take(k as int));
        }
        wv
    };
    let a = scan(&wv, from, CharClass::Whitespace);
    assert(wv@.skip(from as int) =~= s);
    let mut b = to;
    while b > a && CharClass::Whitespace.test(v[b - 1])
        invariant
            from <= a <= b <= to <= v.len(),
            wv@ == v@.take(to as int),
            forall|i: int| b <= i < to ==> is_whitespace(#[trigger] v@[i]),
        decreases b,
    {
        b = b - 1;
    }
    proof {
        let t = s.skip(span(s, CharClass::Whitespace.pred()) as int);
        assert(t =~= v@.subrange(a as int, to as int));
        let n = (to - b) as nat;
        assert forall|i: int| t.len() - n <= i < t.len() implies is_whitespace(#[trigger] t[i]) by {
            assert(t[i] == v@[a + i]);
        }
        if n < t.len() {
            assert(t[t.len() - n - 1] == v@[b - 1]);
        }
        lemma_trailing_is(t, n);
        assert(t.take(t.len() - n) =~= v@.subrange(a as int, b as int));
    }
    chars_to_string(v, a, b)
}

/// The users listed, comma-separated, in `s`: each piece trimmed.
pub fn str_to_vec(s: &str) -> (r: Vec<UserId>)
    ensures
        user_texts(r@) == ignore_list_of(s@),
{
    let v = str_chars(s);
    let mut out: Vec<UserId> = Vec::new();
    let mut pos: usize = 0;
    assert(v@.skip(0) =~= v@);
    assert(user_texts(out@) =~= Seq::empty());
    loop
        invariant
            v@ == s@,
            pos <= v.len(),
            user_texts(out@) + ignore_list_of(v@.skip(pos as int)) == ignore_list_of(v@),
        decreases v.len() - pos,
    {
        let ghost t = v@.skip(pos as int);
        let e = scan(&v, pos, CharClass::NotComma);
        let piece = trim_range(&v, pos, e);
        let ghost prev = out@;
        out.push(UserId(piece));
        assert(user_texts(out@) =~= user_texts(prev).push(trim(v@.subrange(pos as int, e as int))));
        assert(t.take(e - pos) =~= v@.subrange(pos as int, e as int));
        if e >= v.len() {
            assert(split_commas(t) == seq![t]);
            assert(t =~= v@.subrange(pos as int, e as int));
            assert(ignore_list_of(t) =~= seq![trim(t)]);
            assert(user_texts(out@) =~= ignore_list_of(v@));
            return out;
        }
        assert(t.skip(e - pos + 1) =~= v@.skip(e + 1));
        assert(split_commas(t) == seq![t.take(e - pos)] + split_commas(v@.skip(e + 1)));
        assert(ignore_list_of(t) =~= seq![trim(t.take(e - pos))] + ignore_list_of(v@.skip(e + 1)));
        pos = e + 1;
    }
}

} // verus!
