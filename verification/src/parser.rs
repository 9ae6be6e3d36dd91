//! The grammar of command arguments: bare words, channel and user ids (bare
//! or as `<#..>` / `<@..>` mentions), message timestamps, optional arguments
//! and whitespace-separated argument lists.
//!
//! Each parser reads a prefix of its input; its spec function says how many
//! characters it consumes and what value it produces, or `None` when the input
//! does not start with what it recognises.
use vstd::prelude::*;

use crate::ids::{channel_mention, user_mention, ChannelId, Ts, UserId};
use crate::text::{
    chars_to_string, is_ascii_alnum, lemma_span_is, lemma_span_props, scan, span, str_chars, CharClass,
};

verus! {

/// Raised when the input does not start with what a parser recognises.
#[derive(Clone, Copy, Debug, PartialEq, Eq)]
pub struct ParseError;

/// Which kind of identifier an id parser reads.
#[derive(Clone, Copy, Debug, PartialEq, Eq)]
pub enum IdKind {
    Channel,
    User,
}

impl IdKind {
    /// First character of an id of this kind.
    pub open spec fn lead(self, c: char) -> bool {
        match self {
            IdKind::Channel => c == 'C' || c == 'D',
            IdKind::User => c == 'U' || c == 'W' || c == 'B',
        }
    }

    /// Character after `<` in a mention of this kind.
    pub open spec fn sigil(self) -> char {
        match self {
            IdKind::Channel => '#',
            IdKind::User => '@',
        }
    }

    fn is_lead(self, c: char) -> (r: bool)
        ensures
            r == self.lead(c),
    {
        match self {
            IdKind::Channel => c == 'C' || c == 'D',
            IdKind::User => c == 'U' || c == 'W' || c == 'B',
        }
    }

    fn sigil_char(self) -> (r: char)
        ensures
            r == self.sigil(),
    {
        match self {
            IdKind::Channel => '#',
            IdKind::User => '@',
        }
    }
}

/// A word: the longest non-empty run of characters other than space and tab.
pub open spec fn spec_word(s: Seq<char>) -> Option<(nat, Seq<char>)> {
    let n = span(s, CharClass::NotBlank.pred());
    if n == 0 {
        None
    } else {
        Some((n, s.take(n as int)))
    }
}

/// One or more spaces, tabs, carriage returns or line feeds: how many.
pub open spec fn spec_multispace1(s: Seq<char>) -> Option<nat> {
    let n = span(s, CharClass::Multispace.pred());
    if n == 0 {
        None
    } else {
        Some(n)
    }
}

/// A bare id: a lead character of its kind followed by one or more ASCII
/// letters or digits (as many as there are).
pub open spec fn spec_raw_id(s: Seq<char>, kind: IdKind) -> Option<(nat, Seq<char>)> {
    if s.len() > 0 && kind.lead(s[0]) {
        let k = span(s.skip(1), CharClass::AsciiAlnum.pred());
        if k > 0 {
            Some(((k + 1) as nat, s.take(k + 1int)))
        } else {
            None
        }
    } else {
        None
    }
}

/// Where an optional `|label` that starts at `p` ends: past the label when a
/// `|` is followed by a word, else `p` itself.
pub open spec fn label_end(s: Seq<char>, p: nat) -> nat {
    if p < s.len() && s[p as int] == '|' {
        match spec_word(s.skip(p + 1int)) {
            Some((w, _)) => p + 1 + w,
            None => p,
        }
    } else {
        p
    }
}

/// A mention `<` sigil id [`|` word] `>`; its value is the id.
pub open spec fn spec_mention(s: Seq<char>, kind: IdKind) -> Option<(nat, Seq<char>)> {
    if s.len() >= 2 && s[0] == '<' && s[1] == kind.sigil() {
        match spec_raw_id(s.skip(2), kind) {
            Some((m, id)) => {
                let q = label_end(s, 2 + m);
                if q < s.len() && s[q as int] == '>' {
                    Some(((q + 1) as nat, id))
                } else {
                    None
                }
            },
            None => None,
        }
    } else {
        None
    }
}

/// An id argument: a mention, or else a bare id.
pub open spec fn spec_id_arg(s: Seq<char>, kind: IdKind) -> Option<(nat, Seq<char>)> {
    match spec_mention(s, kind) {
        Some(r) => Some(r),
        None => spec_raw_id(s, kind),
    }
}

/// A well-formed bare id of kind `kind`: its lead character, then one or
/// more ASCII letters or digits.
pub open spec fn valid_id(id: Seq<char>, kind: IdKind) -> bool {
    &&& id.len() >= 2
    &&& kind.lead(id[0])
    &&& forall|i: int| 1 <= i < id.len() ==> is_ascii_alnum(#[trigger] id[i])
}

/// How the bot mentions an id of kind `kind` in its messages.
pub open spec fn mention_of(id: Seq<char>, kind: IdKind) -> Seq<char> {
    match kind {
        IdKind::Channel => channel_mention(id),
        IdKind::User => user_mention(id),
    }
}

proof fn lemma_raw_id_prefix(id: Seq<char>, kind: IdKind, rest: Seq<char>)
    requires
        valid_id(id, kind),
        rest.len() == 0 || !is_ascii_alnum(rest[0]),
    ensures
        spec_raw_id(id + rest, kind) == Some((id.len(), id)),
{
    let s = id + rest;
    let t = s.skip(1);
    let n = (id.len() - 1) as nat;
    let p = CharClass::AsciiAlnum.pred();
    assert forall|i: int| 0 <= i < n implies #[trigger] p(t[i]) by {
        assert(t[i] == id[i + 1]);
    }
    if n < t.len() {
        assert(t[n as int] == rest[0]);
    }
    lemma_span_is(t, p, n);
    assert(s.take(n + 1int) =~= id);
}

/// What the bot writes as a mention it reads back as the same id: the
/// mention of a well-formed id, whatever follows it, is read as that id and
/// exactly the mention is consumed; a well-formed bare id followed by
/// something other than a letter or digit is read as itself.
pub proof fn lemma_mention_round_trip(id: Seq<char>, kind: IdKind, rest: Seq<char>)
    requires
        valid_id(id, kind),
    ensures
        spec_id_arg(mention_of(id, kind) + rest, kind) == Some(((id.len() + 3) as nat, id)),
        (rest.len() == 0 || !is_ascii_alnum(rest[0])) ==> spec_id_arg(id + rest, kind) == Some(
            (id.len(), id),
        ),
{
    let s = mention_of(id, kind) + rest;
    let inner = id + (seq!['>'] + rest);
    assert(s.skip(2) =~= inner);
    assert(s[0] == '<' && s[1] == kind.sigil());
    lemma_raw_id_prefix(id, kind, seq!['>'] + rest);
    let q = 2 + id.len();
    assert(s[q as int] == '>');
    assert(label_end(s, q as nat) == q);
    if rest.len() == 0 || !is_ascii_alnum(rest[0]) {
        lemma_raw_id_prefix(id, kind, rest);
        assert((id + rest)[0] == id[0]);
    }
}

/// The round trip at the level of the parsers of `UserId` and `ChannelId`:
/// a message text made of the mention that `to_slack_format` writes is read
/// back as the same id, with nothing left over.
pub proof fn lemma_parse_own_mentions(user: Seq<char>, channel: Seq<char>)
    requires
        valid_id(user, IdKind::User),
        valid_id(channel, IdKind::Channel),
    ensures
        <UserId as Parse>::spec_parse(user_mention(user)) == Some(((user.len() + 3) as nat, user)),
        <ChannelId as Parse>::spec_parse(channel_mention(channel)) == Some(
            ((channel.len() + 3) as nat, channel),
        ),
{
    lemma_mention_round_trip(user, IdKind::User, Seq::empty());
    lemma_mention_round_trip(channel, IdKind::Channel, Seq::empty());
    assert(user_mention(user) + Seq::<char>::empty() =~= user_mention(user));
    assert(channel_mention(channel) + Seq::<char>::empty() =~= channel_mention(channel));
}

/// Number of ASCII digits at the start of `s`.
pub open spec fn digits(s: Seq<char>) -> nat {
    span(s, CharClass::AsciiDigit.pred())
}

/// The characters of a decimal number, as recognised for timestamps: an
/// optional sign; digits with an optional `.` and optional fraction digits,
/// or `.` and digits; then optionally `e`/`E`, an optional sign and digits
/// (which must be there once the `e` is).
pub open spec fn spec_float_len(s: Seq<char>) -> Option<nat> {
    match spec_mantissa_len(s) {
        None => None,
        Some(i) => spec_exponent_end(s, i),
    }
}

/// The sign and mantissa of a decimal number: their length.
pub open spec fn spec_mantissa_len(s: Seq<char>) -> Option<nat> {
    let i0: nat = if s.len() > 0 && (s[0] == '+' || s[0] == '-') {
        1
    } else {
        0
    };
    let d = digits(s.skip(i0 as int));
    if d > 0 {
        let i1 = i0 + d;
        if i1 < s.len() && s[i1 as int] == '.' {
            Some(i1 + 1 + digits(s.skip(i1 + 1int)))
        } else {
            Some(i1)
        }
    } else if i0 < s.len() && s[i0 as int] == '.' && digits(s.skip(i0 + 1int)) > 0 {
        Some(i0 + 1 + digits(s.skip(i0 + 1int)))
    } else {
        None
    }
}

/// Where a number whose mantissa ends at `i` ends: past an exponent (`e`
/// or `E`, optional sign, one or more digits) when an `e` follows, else at
/// `i`; `None` when an `e` is not followed by digits.
pub open spec fn spec_exponent_end(s: Seq<char>, i: nat) -> Option<nat> {
    if i < s.len() && (s[i as int] == 'e' || s[i as int] == 'E') {
        let j: nat = if i + 1 < s.len() && (s[i + 1int] == '+' || s[i + 1int] == '-') {
            i + 2
        } else {
            i + 1
        };
        let e = digits(s.skip(j as int));
        if e > 0 {
            Some(j + e)
        } else {
            None
        }
    } else {
        Some(i)
    }
}

/// A word starting at `pos`: how many characters it has.
fn word_len_at(v: &Vec<char>, pos: usize) -> (r: Option<usize>)
    requires
        pos <= v.len(),
    ensures
        match spec_word(v@.skip(pos as int)) {
            Some((n, w)) => r matches Some(m) && m == n && pos + m <= v.len() && w == v@.subrange(
                pos as int,
                pos + m,
            ),
            None => r.is_none(),
        },
{
    let e = scan(v, pos, CharClass::NotBlank);
    if e == pos {
        None
    } else {
        assert(v@.skip(pos as int).take(e - pos) =~= v@.subrange(pos as int, e as int));
        Some(e - pos)
    }
}

/// A bare id of `kind` starting at `pos`: how many characters it has.
fn raw_id_len_at(v: &Vec<char>, pos: usize, kind: IdKind) -> (r: Option<usize>)
    requires
        pos <= v.len(),
    ensures
        match spec_raw_id(v@.skip(pos as int), kind) {
            Some((n, id)) => r matches Some(m) && m == n && pos + m <= v.len() && id
                == v@.subrange(pos as int, pos + m),
            None => r.is_none(),
        },
{
    let ghost s = v@.skip(pos as int);
    if pos < v.len() && kind.is_lead(v[pos]) {
        assert(s.skip(1) =~= v@.skip(pos + 1));
        assert(s[0] == v@[pos as int]);
        let e = scan(v, pos + 1, CharClass::AsciiAlnum);
        if e > pos + 1 {
            assert(s.take(e - pos) =~= v@.subrange(pos as int, e as int));
            Some(e - pos)
        } else {
            None
        }
    } else {
        assert(pos < v.len() ==> s[0] == v@[pos as int]);
        None
    }
}

/// A mention of `kind` starting at `pos`: its length, and the length of the
/// id inside it (which starts at `pos + 2`).
fn mention_at(v: &Vec<char>, pos: usize, kind: IdKind) -> (r: Option<(usize, usize)>)
    requires
        pos <= v.len(),
    ensures
        match spec_mention(v@.skip(pos as int), kind) {
            Some((n, id)) => r matches Some((m, k)) && m == n && pos + m <= v.len() && pos + 2 + k
                <= v.len() && id == v@.subrange(pos + 2, pos + 2 + k),
            None => r.is_none(),
        },
{
    let ghost s = v@.skip(pos as int);
    if !(v.len() - pos >= 2 && v[pos] == '<' && v[pos + 1] == kind.sigil_char()) {
        assert(v.len() - pos >= 2 ==> s[0] == v@[pos as int] && s[1] == v@[pos + 1]);
        return None;
    }
    assert(s[0] == v@[pos as int] && s[1] == v@[pos + 1]);
    assert(s.skip(2) =~= v@.skip(pos + 2));
    let k = match raw_id_len_at(v, pos + 2, kind) {
        Some(k) => k,
        None => {
            return None;
        },
    };
    let p = pos + 2 + k;
    let ghost pp: nat = (2 + k) as nat;
    assert(p < v.len() ==> s[pp as int] == v@[p as int]);
    let mut q = p;
    if p < v.len() && v[p] == '|' {
        assert(s.skip(pp + 1int) =~= v@.skip(p + 1));
        match word_len_at(v, p + 1) {
            Some(w) => {
                q = p + 1 + w;
            },
            None => {},
        }
    }
    assert(q - pos == label_end(s, pp));
    assert(q < v.len() ==> s[q - pos] == v@[q as int]);
    if q < v.len() && v[q] == '>' {
        Some((q + 1 - pos, k))
    } else {
        None
    }
}

/// An id argument of `kind` starting at `pos`: its length and where the id
/// inside it lies (`v[from..to]`).
fn id_arg_at(v: &Vec<char>, pos: usize, kind: IdKind) -> (r: Option<(usize, usize, usize)>)
    requires
        pos <= v.len(),
    ensures
        match spec_id_arg(v@.skip(pos as int), kind) {
            Some((n, id)) => r matches Some((m, from, to)) && m == n && pos + m <= v.len() && from
                <= to <= v.len() && id == v@.subrange(from as int, to as int),
            None => r.is_none(),
        },
{
    match mention_at(v, pos, kind) {
        Some((m, k)) => Some((m, pos + 2, pos + 2 + k)),
        None => match raw_id_len_at(v, pos, kind) {
            Some(n) => Some((n, pos, pos + n)),
            None => None,
        },
    }
}

/// Number of ASCII digits at `v[pos..]`.
fn digits_at(v: &Vec<char>, pos: usize) -> (r: usize)
    requires
        pos <= v.len(),
    ensures
        r == digits(v@.skip(pos as int)),
        pos + r <= v.len(),
{
    scan(v, pos, CharClass::AsciiDigit) - pos
}

/// Length of the sign and mantissa of a decimal number at `v[pos..]`.
fn mantissa_len_at(v: &Vec<char>, pos: usize) -> (r: Option<usize>)
    requires
        pos <= v.len(),
    ensures
        match spec_mantissa_len(v@.skip(pos as int)) {
            Some(n) => r matches Some(m) && m == n && pos + m <= v.len(),
            None => r.is_none(),
        },
{
    let ghost s = v@.skip(pos as int);
    let len = v.len();
    let i0: usize = if pos < len && (v[pos] == '+' || v[pos] == '-') {
        1
    } else {
        0
    };
    assert(pos < len ==> s[0] == v@[pos as int]);
    assert(s.skip(i0 as int) =~= v@.skip(pos + i0));
    let d = digits_at(v, pos + i0);
    if d > 0 {
        let i1 = i0 + d;
        assert(pos + i1 < len ==> s[i1 as int] == v@[pos + i1]);
        if pos + i1 < len && v[pos + i1] == '.' {
            assert(s.skip(i1 + 1int) =~= v@.skip(pos + i1 + 1));
            let f = digits_at(v, pos + i1 + 1);
            Some(i1 + 1 + f)
        } else {
            Some(i1)
        }
    } else {
        assert(pos + i0 < len ==> s[i0 as int] == v@[pos + i0]);
        if pos + i0 < len && v[pos + i0] == '.' {
            assert(s.skip(i0 + 1int) =~= v@.skip(pos + i0 + 1));
            let f = digits_at(v, pos + i0 + 1);
            if f > 0 {
                Some(i0 + 1 + f)
            } else {
                None
            }
        } else {
            None
        }
    }
}

/// The exponent part at `v[pos + i..]`, given a mantissa of length `i`.
fn exponent_end_at(v: &Vec<char>, pos: usize, i: usize) -> (r: Option<usize>)
    requires
        pos + i <= v.len(),
    ensures
        match spec_exponent_end(v@.skip(pos as int), i as nat) {
            Some(n) => r matches Some(m) && m == n && pos + m <= v.len(),
            None => r.is_none(),
        },
{
    let ghost s = v@.skip(pos as int);
    let len = v.len();
    assert(pos + i < len ==> s[i as int] == v@[pos + i]);
    if pos + i < len && (v[pos + i] == 'e' || v[pos + i] == 'E') {
        assert(pos + i + 1 < len ==> s[i + 1int] == v@[pos + i + 1]);
        let j: usize = if pos + i + 1 < len && (v[pos + i + 1] == '+' || v[pos + i + 1] == '-') {
            i + 2
        } else {
            i + 1
        };
        assert(s.skip(j as int) =~= v@.skip(pos + j));
        let e = digits_at(v, pos + j);
        if e > 0 {
            Some(j + e)
        } else {
            None
        }
    } else {
        Some(i)
    }
}

/// A decimal number starting at `pos`: how many characters it has.
fn float_len_at(v: &Vec<char>, pos: usize) -> (r: Option<usize>)
    requires
        pos <= v.len(),
    ensures
        match spec_float_len(v@.skip(pos as int)) {
            Some(n) => r matches Some(m) && m == n && pos + m <= v.len(),
            None => r.is_none(),
        },
{
    match mantissa_len_at(v, pos) {
        Some(i) => exponent_end_at(v, pos, i),
        None => None,
    }
}

/// One or more whitespace characters at `pos`: how many.
fn multispace1_at(v: &Vec<char>, pos: usize) -> (r: Option<usize>)
    requires
        pos <= v.len(),
    ensures
        match spec_multispace1(v@.skip(pos as int)) {
            Some(n) => r matches Some(m) && m == n && pos + m <= v.len(),
            None => r.is_none(),
        },
{
    let e = scan(v, pos, CharClass::Multispace);
    if e == pos {
        None
    } else {
        Some(e - pos)
    }
}

/// A value that can be read from the start of a command argument string.
pub trait Parse: Sized + DeepView {
    /// How many characters the parser consumes from `s` and what it reads.
    spec fn spec_parse(s: Seq<char>) -> Option<(nat, <Self as DeepView>::V)>;

    /// Parses a value from `v[pos..]`, returning how many characters it took.
    fn parse_at(v: &Vec<char>, pos: usize) -> (r: Option<(usize, Self)>)
        requires
            pos <= v.len(),
        ensures
            match Self::spec_parse(v@.skip(pos as int)) {
                Some((n, x)) => r matches Some((m, y)) && m == n && y.deep_view() == x,
                None => r.is_none(),
            },
            r matches Some((m, _)) ==> pos + m <= v.len(),
    ;

    /// Parses a value from the start of `arg`, returning the rest of `arg`.
    fn parse(arg: &str) -> (r: Result<(&str, Self), ParseError>)
        ensures
            match Self::spec_parse(arg@) {
                Some((n, x)) => r matches Ok((rest, y)) && rest@ == arg@.skip(n as int)
                    && y.deep_view() == x,
                None => r is Err,
            },
    ;
}

/// Turns the outcome of a parser run on the characters of `arg` into the
/// rest of `arg` and the value read.
pub(crate) fn finish<'a, T>(arg: &'a str, v: &Vec<char>, r: Option<(usize, T)>) -> (res: Result<(&'a str, T), ParseError>)
    requires
        v@ == arg@,
        r matches Some((n, _)) ==> n <= v.len(),
    ensures
        match r {
            Some((n, x)) => res matches Ok((rest, y)) && rest@ == arg@.skip(n as int) && y == x,
            None => res is Err,
        },
{
    match r {
        Some((n, x)) => {
            let rest = arg.substring_char(n, v.len());
            assert(rest@ =~= arg@.skip(n as int));
            Ok((rest, x))
        },
        None => Err(ParseError),
    }
}

impl Parse for ChannelId {
    open spec fn spec_parse(s: Seq<char>) -> Option<(nat, Seq<char>)> {
        spec_id_arg(s, IdKind::Channel)
    }

    fn parse_at(v: &Vec<char>, pos: usize) -> (r: Option<(usize, ChannelId)>) {
        match id_arg_at(v, pos, IdKind::Channel) {
            Some((m, from, to)) => Some((m, ChannelId(chars_to_string(v, from, to)))),
            None => None,
        }
    }

    fn parse(arg: &str) -> (r: Result<(&str, ChannelId), ParseError>) {
        let v = str_chars(arg);
        assert(v@.skip(0) =~= v@);
        let r = Self::parse_at(&v, 0);
        finish(arg, &v, r)
    }
}

impl Parse for UserId {
    open spec fn spec_parse(s: Seq<char>) -> Option<(nat, Seq<char>)> {
        spec_id_arg(s, IdKind::User)
    }

    fn parse_at(v: &Vec<char>, pos: usize) -> (r: Option<(usize, UserId)>) {
        match id_arg_at(v, pos, IdKind::User) {
            Some((m, from, to)) => Some((m, UserId(chars_to_string(v, from, to)))),
            None => None,
        }
    }

    fn parse(arg: &str) -> (r: Result<(&str, UserId), ParseError>) {
        let v = str_chars(arg);
        assert(v@.skip(0) =~= v@);
        let r = Self::parse_at(&v, 0);
        finish(arg, &v, r)
    }
}

impl Parse for Ts {
    open spec fn spec_parse(s: Seq<char>) -> Option<(nat, Seq<char>)> {
        match spec_float_len(s) {
            Some(n) => Some((n, s.take(n as int))),
            None => None,
        }
    }

    fn parse_at(v: &Vec<char>, pos: usize) -> (r: Option<(usize, Ts)>) {
        match float_len_at(v, pos) {
            Some(n) => {
                assert(v@.skip(pos as int).take(n as int) =~= v@.subrange(
                    pos as int,
                    (pos + n) as int,
                ));
                Some((n, Ts(chars_to_string(v, pos, pos + n))))
            },
            None => None,
        }
    }

    fn parse(arg: &str) -> (r: Result<(&str, Ts), ParseError>) {
        let v = str_chars(arg);
        assert(v@.skip(0) =~= v@);
        let r = Self::parse_at(&v, 0);
        finish(arg, &v, r)
    }
}

impl Parse for String {
    open spec fn spec_parse(s: Seq<char>) -> Option<(nat, Seq<char>)> {
        spec_word(s)
    }

    fn parse_at(v: &Vec<char>, pos: usize) -> (r: Option<(usize, String)>) {
        match word_len_at(v, pos) {
            Some(n) => Some((n, chars_to_string(v, pos, pos + n))),
            None => None,
        }
    }

    fn parse(arg: &str) -> (r: Result<(&str, String), ParseError>) {
        let v = str_chars(arg);
        assert(v@.skip(0) =~= v@);
        let r = Self::parse_at(&v, 0);
        finish(arg, &v, r)
    }
}

impl<X: Parse> Parse for Option<X> {
    /// An optional argument never fails: when `X` does not parse, nothing is
    /// consumed and the value is `None`.
    open spec fn spec_parse(s: Seq<char>) -> Option<(nat, Option<<X as DeepView>::V>)> {
        match X::spec_parse(s) {
            Some((n, x)) => Some((n, Some(x))),
            None => Some((0, None)),
        }
    }

    fn parse_at(v: &Vec<char>, pos: usize) -> (r: Option<(usize, Option<X>)>) {
        match X::parse_at(v, pos) {
            Some((n, x)) => Some((n, Some(x))),
            None => Some((0, None)),
        }
    }

    fn parse(arg: &str) -> (r: Result<(&str, Option<X>), ParseError>) {
        let v = str_chars(arg);
        assert(v@.skip(0) =~= v@);
        let r = Self::parse_at(&v, 0);
        finish(arg, &v, r)
    }
}

/// `parse_channel_id`: a bare channel id (`C` or `D`, then letters and digits).
pub fn parse_channel_id(arg: &str) -> (r: Result<(&str, ChannelId), ParseError>)
    ensures
        match spec_raw_id(arg@, IdKind::Channel) {
            Some((n, id)) => r matches Ok((rest, c)) && rest@ == arg@.skip(n as int) && c@ == id,
            None => r is Err,
        },
{
    let v = str_chars(arg);
    assert(v@.skip(0) =~= v@);
    match raw_id_len_at(&v, 0, IdKind::Channel) {
        Some(n) => {
            let id = ChannelId(chars_to_string(&v, 0, n));
            let rest = arg.substring_char(n, v.len());
            assert(rest@ =~= arg@.skip(n as int));
            Ok((rest, id))
        },
        None => Err(ParseError),
    }
}

/// `parse_user_id`: a bare user id (`U`, `W` or `B`, then letters and digits).
pub fn parse_user_id(arg: &str) -> (r: Result<(&str, UserId), ParseError>)
    ensures
        match spec_raw_id(arg@, IdKind::User) {
            Some((n, id)) => r matches Ok((rest, u)) && rest@ == arg@.skip(n as int) && u@ == id,
            None => r is Err,
        },
{
    let v = str_chars(arg);
    assert(v@.skip(0) =~= v@);
    match raw_id_len_at(&v, 0, IdKind::User) {
        Some(n) => {
            let id = UserId(chars_to_string(&v, 0, n));
            let rest = arg.substring_char(n, v.len());
            assert(rest@ =~= arg@.skip(n as int));
            Ok((rest, id))
        },
        None => Err(ParseError),
    }
}

/// `word`: the leading run of characters other than space and tab.
pub fn word(input: &str) -> (r: Result<(&str, String), ParseError>)
    ensures
        match spec_word(input@) {
            Some((n, w)) => r matches Ok((rest, s)) && rest@ == input@.skip(n as int) && s@ == w,
            None => r is Err,
        },
{
    String::parse(input)
}

/// `parse_ts`: a message timestamp, read as a decimal number.
pub fn parse_ts(s: &str) -> (r: Result<(&str, Ts), ParseError>)
    ensures
        match spec_float_len(s@) {
            Some(n) => r matches Ok((rest, t)) && rest@ == s@.skip(n as int) && t@ == s@.take(
                n as int,
            ),
            None => r is Err,
        },
{
    Ts::parse(s)
}

/// Whitespace then one argument.
pub open spec fn spec_arg_step<A: Parse>(s: Seq<char>) -> Option<(nat, <A as DeepView>::V)> {
    match spec_multispace1(s) {
        Some(k) => match A::spec_parse(s.skip(k as int)) {
            Some((n, a)) => Some((k + n, a)),
            None => None,
        },
        None => None,
    }
}

fn arg_step_at<A: Parse>(v: &Vec<char>, pos: usize) -> (r: Option<(usize, A)>)
    requires
        pos <= v.len(),
    ensures
        match spec_arg_step::<A>(v@.skip(pos as int)) {
            Some((n, x)) => r matches Some((m, y)) && m == n && y.deep_view() == x,
            None => r.is_none(),
        },
        r matches Some((m, _)) ==> pos + m <= v.len(),
{
    match multispace1_at(v, pos) {
        Some(k) => {
            assert(v@.skip(pos as int).skip(k as int) =~= v@.skip(pos + k));
            match A::parse_at(v, pos + k) {
                Some((n, a)) => Some((k + n, a)),
                None => None,
            }
        },
        None => None,
    }
}

/// The arguments of a command: each argument preceded by whitespace.
pub trait CmdArgs: Sized + DeepView {
    /// How many characters the argument list takes from `s` and its values.
    spec fn spec_parse_args(s: Seq<char>) -> Option<(nat, <Self as DeepView>::V)>;

    /// Parses the argument list from `v[pos..]`.
    fn parse_args_at(v: &Vec<char>, pos: usize) -> (r: Option<(usize, Self)>)
        requires
            pos <= v.len(),
        ensures
            match Self::spec_parse_args(v@.skip(pos as int)) {
                Some((n, x)) => r matches Some((m, y)) && m == n && y.deep_view() == x,
                None => r.is_none(),
            },
            r matches Some((m, _)) ==> pos + m <= v.len(),
    ;
}

impl CmdArgs for () {
    /// A command without arguments reads nothing.
    open spec fn spec_parse_args(s: Seq<char>) -> Option<(nat, ())> {
        Some((0, ()))
    }

    fn parse_args_at(v: &Vec<char>, pos: usize) -> (r: Option<(usize, ())>) {
        Some((0, ()))
    }
}

impl<A0: Parse> CmdArgs for (A0,) {
    open spec fn spec_parse_args(s: Seq<char>) -> Option<(nat, (<A0 as DeepView>::V,))> {
        match spec_arg_step::<A0>(s) {
            Some((n0, a0)) => Some((n0, (a0,))),
            None => None,
        }
    }

    fn parse_args_at(v: &Vec<char>, pos: usize) -> (r: Option<(usize, (A0,))>) {
        match arg_step_at::<A0>(v, pos) {
            Some((n0, a0)) => Some((n0, (a0,))),
            None => None,
        }
    }
}

impl<A0: Parse, A1: Parse> CmdArgs for (A0, A1) {
    open spec fn spec_parse_args(s: Seq<char>) -> Option<
        (nat, (<A0 as DeepView>::V, <A1 as DeepView>::V)),
    > {
        match spec_arg_step::<A0>(s) {
            Some((n0, a0)) => match spec_arg_step::<A1>(s.skip(n0 as int)) {
                Some((n1, a1)) => Some((n0 + n1, (a0, a1))),
                None => None,
            },
            None => None,
        }
    }

    fn parse_args_at(v: &Vec<char>, pos: usize) -> (r: Option<(usize, (A0, A1))>) {
        match arg_step_at::<A0>(v, pos) {
            Some((n0, a0)) => {
                assert(v@.skip(pos as int).skip(n0 as int) =~= v@.skip(pos + n0));
                match arg_step_at::<A1>(v, pos + n0) {
                    Some((n1, a1)) => Some((n0 + n1, (a0, a1))),
                    None => None,
                }
            },
            None => None,
        }
    }
}

impl<A0: Parse, A1: Parse, A2: Parse> CmdArgs for (A0, A1, A2) {
    open spec fn spec_parse_args(s: Seq<char>) -> Option<
        (nat, (<A0 as DeepView>::V, <A1 as DeepView>::V, <A2 as DeepView>::V)),
    > {
        match spec_arg_step::<A0>(s) {
            Some((n0, a0)) => match spec_arg_step::<A1>(s.skip(n0 as int)) {
                Some((n1, a1)) => match spec_arg_step::<A2>(s.skip(n0 + n1 as int)) {
                    Some((n2, a2)) => Some((n0 + n1 + n2, (a0, a1, a2))),
                    None => None,
                },
                None => None,
            },
            None => None,
        }
    }

    fn parse_args_at(v: &Vec<char>, pos: usize) -> (r: Option<(usize, (A0, A1, A2))>) {
        match arg_step_at::<A0>(v, pos) {
            Some((n0, a0)) => {
                assert(v@.skip(pos as int).skip(n0 as int) =~= v@.skip(pos + n0));
                match arg_step_at::<A1>(v, pos + n0) {
                    Some((n1, a1)) => {
                        assert(v@.skip(pos as int).skip(n0 + n1) =~= v@.skip(pos + n0 + n1));
                        match arg_step_at::<A2>(v, pos + n0 + n1) {
                            Some((n2, a2)) => Some((n0 + n1 + n2, (a0, a1, a2))),
                            None => None,
                        }
                    },
                    None => None,
                }
            },
            None => None,
        }
    }
}

} // verus!
