//! Hiding the session tokens in log output.
use vstd::prelude::*;

use crate::bridge::{url_decode, url_decoded, utf8_lossy, utf8_lossy_text};
use crate::text::{contains_seq, match_at, occurs_at, push_char, push_str, str_chars};

verus! {

/// `s` with every occurrence of `pat` replaced by `rep`, occurrences taken
/// from the left without overlap (`str::replace`). An empty `pat` occurs
/// before every character and at the end.
pub open spec fn replace_all(s: Seq<char>, pat: Seq<char>, rep: Seq<char>) -> Seq<char>
    decreases s.len(),
{
    if pat.len() == 0 {
        if s.len() == 0 {
            rep
        } else {
            rep + seq![s[0]] + replace_all(s.skip(1), pat, rep)
        }
    } else if s.len() < pat.len() {
        s
    } else if s.take(pat.len() as int) == pat {
        rep + replace_all(s.skip(pat.len() as int), pat, rep)
    } else {
        seq![s[0]] + replace_all(s.skip(1), pat, rep)
    }
}

/// `s` with `pat` replaced by `rep`.
pub fn replace(s: &str, pat: &str, rep: &str) -> (r: String)
    ensures
        r@ == replace_all(s@, pat@, rep@),
{
    let v = str_chars(s);
    let p = str_chars(pat);
    let mut out = String::new();
    let mut i: usize = 0;
    assert(v@.skip(0) =~= v@);
    while i < v.len()
        invariant
            v@ == s@,
            p@ == pat@,
            i <= v.len(),
            out@ + replace_all(v@.skip(i as int), p@, rep@) == replace_all(v@, p@, rep@),
        decreases v.len() - i,
    {
        let ghost t = v@.skip(i as int);
        if p.len() == 0 {
            push_str(&mut out, rep);
            push_char(&mut out, v[i]);
            assert(t.skip(1) =~= v@.skip(i + 1));
            assert(t[0] == v@[i as int]);
            i = i + 1;
            assert(out@ + replace_all(v@.skip(i as int), p@, rep@) =~= replace_all(v@, p@, rep@));
        } else if match_at(&v, &p, i) {
            push_str(&mut out, rep);
            assert(t.take(p.len() as int) =~= v@.subrange(i as int, i + p.len()));
            assert(t.skip(p.len() as int) =~= v@.skip(i + p.len()));
            i = i + p.len();
            assert(out@ + replace_all(v@.skip(i as int), p@, rep@) =~= replace_all(v@, p@, rep@));
        } else {
            push_char(&mut out, v[i]);
            assert(t.skip(1) =~= v@.skip(i + 1));
            assert(t[0] == v@[i as int]);
            assert(t.len() >= p@.len() ==> t.take(p.len() as int) =~= v@.subrange(
                i as int,
                i + p.len(),
            ));
            i = i + 1;
            assert(out@ + replace_all(v@.skip(i as int), p@, rep@) =~= replace_all(v@, p@, rep@));
        }
    }
    let ghost e = v@.skip(i as int);
    assert(e.len() == 0);
    if p.len() == 0 {
        push_str(&mut out, rep);
    }
    assert(out@ =~= replace_all(v@, p@, rep@));
    out
}

/// When `pat` is not empty and does not occur in `s`, `s` is left as it is.
pub proof fn lemma_replace_absent(s: Seq<char>, pat: Seq<char>, rep: Seq<char>)
    requires
        pat.len() > 0,
        !crate::text::contains_seq(s, pat),
    ensures
        replace_all(s, pat, rep) == s,
    decreases s.len(),
{
    if s.len() >= pat.len() {
        assert(!crate::text::occurs_at(s, pat, 0));
        assert(s.take(pat.len() as int) =~= s.subrange(0, pat.len() as int));
        let t = s.skip(1);
        assert forall|j: int| !crate::text::occurs_at(t, pat, j) by {
            if crate::text::occurs_at(t, pat, j) {
                assert(t.subrange(j, j + pat.len()) =~= s.subrange(j + 1, j + 1 + pat.len()));
                assert(crate::text::occurs_at(s, pat, j + 1));
            }
        }
        lemma_replace_absent(t, pat, rep);
        assert(seq![s[0]] + t =~= s);
    }
}

/// `q` cannot meet the replacement text `rep`: it holds neither the first
/// nor the last character of `rep`, and it is not part of `rep`.
pub open spec fn foreign(q: Seq<char>, rep: Seq<char>) -> bool {
    &&& rep.len() > 0
    &&& !q.contains(rep[0])
    &&& !q.contains(rep.last())
    &&& !contains_seq(rep, q)
}

/// The output of a replacement agrees with its input up to the first place
/// where the replacement text starts.
proof fn lemma_replace_prefix(t: Seq<char>, pat: Seq<char>, rep: Seq<char>, m: int)
    requires
        pat.len() > 0,
        rep.len() > 0,
        0 <= m <= replace_all(t, pat, rep).len(),
        forall|i: int| 0 <= i < m ==> replace_all(t, pat, rep)[i] != rep[0],
    ensures
        m <= t.len(),
        replace_all(t, pat, rep).take(m) == t.take(m),
    decreases t.len(),
{
    let r = replace_all(t, pat, rep);
    if t.len() < pat.len() {
        assert(r == t);
    } else if t.take(pat.len() as int) == pat {
        if m > 0 {
            assert(r[0] == rep[0]);
        }
        assert(r.take(m) =~= t.take(m));
    } else {
        let t1 = t.skip(1);
        let r1 = replace_all(t1, pat, rep);
        assert(r == seq![t[0]] + r1);
        if m > 0 {
            assert forall|i: int| 0 <= i < m - 1 implies r1[i] != rep[0] by {
                assert(r1[i] == r[i + 1]);
            }
            lemma_replace_prefix(t1, pat, rep, m - 1);
            assert forall|i: int| 0 <= i < m implies r.take(m)[i] == t.take(m)[i] by {
                if i > 0 {
                    assert(r[i] == r1[i - 1]);
                    assert(r1.take(m - 1)[i - 1] == t1.take(m - 1)[i - 1]);
                }
            }
            assert(r.take(m) =~= t.take(m));
        } else {
            assert(r.take(m) =~= t.take(m));
        }
    }
}

/// A text without `q` keeps none after a part of it is cut off at the front.
proof fn lemma_absent_in_suffix(s: Seq<char>, q: Seq<char>, k: int)
    requires
        0 <= k <= s.len(),
        !contains_seq(s, q),
    ensures
        !contains_seq(s.skip(k), q),
{
    if contains_seq(s.skip(k), q) {
        let j = choose|j: int| occurs_at(s.skip(k), q, j);
        assert(s.skip(k).subrange(j, j + q.len()) =~= s.subrange(j + k, j + k + q.len()));
        assert(occurs_at(s, q, j + k));
    }
}

/// An occurrence of `q` that meets a leading copy of `rep` is impossible
/// when `q` is foreign to `rep`.
proof fn lemma_no_occurrence_in_rep(rep: Seq<char>, rest: Seq<char>, q: Seq<char>, j: int)
    requires
        q.len() > 0,
        foreign(q, rep),
        occurs_at(rep + rest, q, j),
    ensures
        j >= rep.len(),
{
    let r = rep + rest;
    if j < rep.len() {
        if j + q.len() <= rep.len() {
            assert(r.subrange(j, j + q.len()) =~= rep.subrange(j, j + q.len()));
            assert(occurs_at(rep, q, j));
        } else {
            let k = rep.len() - 1 - j;
            assert(r.subrange(j, j + q.len())[k] == r[rep.len() - 1]);
            assert(q[k] == rep.last());
        }
    }
}

/// Replacing `pat` keeps out of the text any `q` that was not in it and is
/// foreign to the replacement text.
pub proof fn lemma_replace_keeps_absent(s: Seq<char>, pat: Seq<char>, rep: Seq<char>, q: Seq<char>)
    requires
        pat.len() > 0,
        q.len() > 0,
        foreign(q, rep),
        !contains_seq(s, q),
    ensures
        !contains_seq(replace_all(s, pat, rep), q),
    decreases s.len(),
{
    let r = replace_all(s, pat, rep);
    if contains_seq(r, q) {
        let j = choose|j: int| occurs_at(r, q, j);
        if s.len() < pat.len() {
            assert(occurs_at(s, q, j));
        } else if s.take(pat.len() as int) == pat {
            let s1 = s.skip(pat.len() as int);
            let r1 = replace_all(s1, pat, rep);
            lemma_absent_in_suffix(s, q, pat.len() as int);
            lemma_replace_keeps_absent(s1, pat, rep, q);
            lemma_no_occurrence_in_rep(rep, r1, q, j);
            assert(r.subrange(j, j + q.len()) =~= r1.subrange(j - rep.len(), j - rep.len() + q.len()));
            assert(occurs_at(r1, q, j - rep.len()));
        } else {
            let t = s.skip(1);
            let rt = replace_all(t, pat, rep);
            assert(r == seq![s[0]] + rt);
            lemma_absent_in_suffix(s, q, 1);
            lemma_replace_keeps_absent(t, pat, rep, q);
            if j >= 1 {
                assert(r.subrange(j, j + q.len()) =~= rt.subrange(j - 1, j - 1 + q.len()));
                assert(occurs_at(rt, q, j - 1));
            } else {
                let m = q.len() - 1;
                assert forall|i: int| 0 <= i < m implies rt[i] != rep[0] by {
                    assert(rt[i] == r.subrange(0, q.len() as int)[i + 1]);
                    assert(q[i + 1] == rt[i]);
                }
                lemma_replace_prefix(t, pat, rep, m);
                assert forall|i: int| 0 <= i < q.len() implies s.subrange(0, q.len() as int)[i] == q[i] by {
                    assert(q[i] == r.subrange(0, q.len() as int)[i]);
                    if i > 0 {
                        assert(rt.take(m)[i - 1] == t.take(m)[i - 1]);
                    }
                }
                assert(s.subrange(0, q.len() as int) =~= q);
                assert(occurs_at(s, q, 0));
            }
        }
    }
}

/// Replacing `pat`, when it is foreign to the replacement text, leaves no
/// occurrence of it.
pub proof fn lemma_replace_removes(s: Seq<char>, pat: Seq<char>, rep: Seq<char>)
    requires
        pat.len() > 0,
        foreign(pat, rep),
    ensures
        !contains_seq(replace_all(s, pat, rep), pat),
    decreases s.len(),
{
    let r = replace_all(s, pat, rep);
    if contains_seq(r, pat) {
        let j = choose|j: int| occurs_at(r, pat, j);
        if s.len() < pat.len() {
            assert(r == s);
        } else if s.take(pat.len() as int) == pat {
            let s1 = s.skip(pat.len() as int);
            let r1 = replace_all(s1, pat, rep);
            lemma_replace_removes(s1, pat, rep);
            lemma_no_occurrence_in_rep(rep, r1, pat, j);
            assert(r.subrange(j, j + pat.len()) =~= r1.subrange(
                j - rep.len(),
                j - rep.len() + pat.len(),
            ));
            assert(occurs_at(r1, pat, j - rep.len()));
        } else {
            let t = s.skip(1);
            let rt = replace_all(t, pat, rep);
            assert(r == seq![s[0]] + rt);
            lemma_replace_removes(t, pat, rep);
            if j >= 1 {
                assert(r.subrange(j, j + pat.len()) =~= rt.subrange(j - 1, j - 1 + pat.len()));
                assert(occurs_at(rt, pat, j - 1));
            } else {
                let m = pat.len() - 1;
                assert forall|i: int| 0 <= i < m implies rt[i] != rep[0] by {
                    assert(rt[i] == r.subrange(0, pat.len() as int)[i + 1]);
                    assert(pat[i + 1] == rt[i]);
                }
                lemma_replace_prefix(t, pat, rep, m);
                assert forall|i: int| 0 <= i < pat.len() implies s.take(pat.len() as int)[i]
                    == pat[i] by {
                    assert(pat[i] == r.subrange(0, pat.len() as int)[i]);
                    if i > 0 {
                        assert(rt.take(m)[i - 1] == t.take(m)[i - 1]);
                    }
                }
                assert(s.take(pat.len() as int) =~= pat);
            }
        }
    }
}

/// The session tokens to hide: both tokens as configured, and the second
/// one percent-decoded.
#[derive(Debug)]
pub struct RedactingMakeWriter {
    pub token_c: String,
    pub token_d: String,
    pub decoded_token_d: String,
}

impl RedactingMakeWriter {
    /// The tokens to hide; `None` when the second token does not
    /// percent-decode to UTF-8 text.
    pub fn new(token_c: String, token_d: String) -> (r: Option<RedactingMakeWriter>)
        ensures
            r.is_some() == url_decoded(token_d@).is_some(),
            r matches Some(w) ==> w.token_c@ == token_c@ && w.token_d@ == token_d@ && Some(
                w.decoded_token_d@,
            ) == url_decoded(token_d@),
    {
        match url_decode(token_d.as_str()) {
            Some(d) => Some(RedactingMakeWriter { token_c, token_d, decoded_token_d: d }),
            None => None,
        }
    }
}

/// The log text with the tokens hidden: the first token, then the second,
/// then the decoded second are replaced in turn.
pub open spec fn redacted(log: Seq<char>, c: Seq<char>, d: Seq<char>, dd: Seq<char>) -> Seq<char> {
    replace_all(
        replace_all(replace_all(log, c, "[REDACTED_XOXC]"@), d, "[REDACTED_XOXD]"@),
        dd,
        "[REDACTED_XOXD]"@,
    )
}

/// No token survives redaction: the redacted text of a log line holds no
/// occurrence of the xoxc token, of the xoxd token, nor of its decoded
/// form, provided each is non-empty, holds no square bracket, and is not
/// part of the replacement texts.
pub proof fn lemma_redacted_hides_tokens(log: Seq<char>, c: Seq<char>, d: Seq<char>, dd: Seq<char>)
    requires
        c.len() > 0,
        d.len() > 0,
        dd.len() > 0,
        !c.contains('[') && !c.contains(']'),
        !d.contains('[') && !d.contains(']'),
        !dd.contains('[') && !dd.contains(']'),
        !contains_seq("[REDACTED_XOXC]"@, c),
        !contains_seq("[REDACTED_XOXD]"@, c),
        !contains_seq("[REDACTED_XOXD]"@, d),
        !contains_seq("[REDACTED_XOXD]"@, dd),
    ensures
        !contains_seq(redacted(log, c, d, dd), c),
        !contains_seq(redacted(log, c, d, dd), d),
        !contains_seq(redacted(log, c, d, dd), dd),
{
    let xc = "[REDACTED_XOXC]"@;
    let xd = "[REDACTED_XOXD]"@;
    reveal_strlit("[REDACTED_XOXC]");
    reveal_strlit("[REDACTED_XOXD]");
    assert(xc[0] == '[' && xc.last() == ']');
    assert(xd[0] == '[' && xd.last() == ']');
    let r1 = replace_all(log, c, xc);
    let r2 = replace_all(r1, d, xd);
    lemma_replace_removes(log, c, xc);
    lemma_replace_keeps_absent(r1, d, xd, c);
    lemma_replace_keeps_absent(r2, dd, xd, c);
    lemma_replace_removes(r1, d, xd);
    lemma_replace_keeps_absent(r2, dd, xd, d);
    lemma_replace_removes(r2, dd, xd);
}

impl RedactingMakeWriter {
    /// What is written for the log bytes `buf`: their text (invalid UTF-8
    /// replaced), with the tokens hidden.
    pub fn write(&self, buf: &[u8]) -> (r: String)
        ensures
            r@ == redacted(
                utf8_lossy_text(buf@),
                self.token_c@,
                self.token_d@,
                self.decoded_token_d@,
            ),
    {
        let log = utf8_lossy(buf);
        let a = replace(log.as_str(), self.token_c.as_str(), "[REDACTED_XOXC]");
        let b = replace(a.as_str(), self.token_d.as_str(), "[REDACTED_XOXD]");
        replace(b.as_str(), self.decoded_token_d.as_str(), "[REDACTED_XOXD]")
    }
}

} // verus!
