//! The user-mention markup in chart credits.
//!
//! A chart's charter field may name users as `[!:<id>:<name>]`, where `<id>`
//! is one or more ASCII digits. For display, each such mention is replaced by
//! its name. Mentions are found from left to right without overlapping; the
//! name runs up to the last `]` before the next `:` (or the end of the text).

use vstd::prelude::*;
use crate::text::{chars_of, push_char};

verus! {

/// Whether `c` is one of the ASCII digits `0` to `9`.
pub open spec fn is_ascii_digit(c: char) -> bool {
    '0' <= c && c <= '9'
}

/// The first index at or after `k` that does not hold an ASCII digit.
pub open spec fn digits_end(s: Seq<char>, k: int) -> int
    decreases s.len() - k,
{
    if 0 <= k < s.len() && is_ascii_digit(s[k]) {
        digits_end(s, k + 1)
    } else {
        k
    }
}

/// The first index at or after `k` that holds a `:` (or the length of `s`).
pub open spec fn colon_free_end(s: Seq<char>, k: int) -> int
    decreases s.len() - k,
{
    if 0 <= k < s.len() && s[k] != ':' {
        colon_free_end(s, k + 1)
    } else {
        k
    }
}

/// The last index in `[lo, hi)` that holds a `]`, if any.
pub open spec fn last_close(s: Seq<char>, lo: int, hi: int) -> Option<int>
    decreases hi - lo,
{
    if hi <= lo {
        None
    } else if s[hi - 1] == ']' {
        Some(hi - 1)
    } else {
        last_close(s, lo, hi - 1)
    }
}

/// The result of `last_close` lies in its range and holds a `]`; when there
/// is none, no index of the range holds one.
pub proof fn lemma_last_close(s: Seq<char>, lo: int, hi: int)
    ensures
        last_close(s, lo, hi) matches Some(e) ==> lo <= e < hi && s[e] == ']',
        last_close(s, lo, hi) is None ==> forall|k: int| lo <= k < hi ==> s[k] != ']',
    decreases hi - lo,
{
    if hi > lo && s[hi - 1] != ']' {
        lemma_last_close(s, lo, hi - 1);
    }
}

/// The mention that starts at index `i` of `s`, if one does: the start and
/// end of its name, and the index just past its closing `]`.
pub open spec fn mention_at(s: Seq<char>, i: int) -> Option<(int, int, int)> {
    if 0 <= i && i + 3 <= s.len() && s[i] == '[' && s[i + 1] == '!' && s[i + 2] == ':' {
        let d = digits_end(s, i + 3);
        if d > i + 3 && d < s.len() && s[d] == ':' {
            match last_close(s, d + 1, colon_free_end(s, d + 1)) {
                Some(e) => Some((d + 1, e, e + 1)),
                None => None,
            }
        } else {
            None
        }
    } else {
        None
    }
}

/// The index that ends a run of digits lies within the text, past its start.
pub proof fn lemma_digits_end(s: Seq<char>, k: int)
    requires
        0 <= k <= s.len(),
    ensures
        k <= digits_end(s, k) <= s.len(),
        forall|j: int| k <= j < digits_end(s, k) ==> is_ascii_digit(#[trigger] s[j]),
        digits_end(s, k) < s.len() ==> !is_ascii_digit(s[digits_end(s, k)]),
    decreases s.len() - k,
{
    if k < s.len() && is_ascii_digit(s[k]) {
        lemma_digits_end(s, k + 1);
    }
}

/// The index that ends a run free of `:` lies within the text, past its start.
pub proof fn lemma_colon_free_end(s: Seq<char>, k: int)
    requires
        0 <= k <= s.len(),
    ensures
        k <= colon_free_end(s, k) <= s.len(),
        forall|j: int| k <= j < colon_free_end(s, k) ==> #[trigger] s[j] != ':',
        colon_free_end(s, k) < s.len() ==> s[colon_free_end(s, k)] == ':',
    decreases s.len() - k,
{
    if k < s.len() && s[k] != ':' {
        lemma_colon_free_end(s, k + 1);
    }
}

/// A mention lies within the text: its name starts past `i + 3` and its end
/// is past its name.
pub proof fn lemma_mention_bounds(s: Seq<char>, i: int)
    ensures
        mention_at(s, i) matches Some((g, e, end)) ==> i + 4 < g <= e && end == e + 1 && end
            <= s.len() && s[e] == ']',
{
    if 0 <= i && i + 3 <= s.len() && s[i] == '[' && s[i + 1] == '!' && s[i + 2] == ':' {
        lemma_digits_end(s, i + 3);
        let d = digits_end(s, i + 3);
        if d > i + 3 && d < s.len() && s[d] == ':' {
            lemma_colon_free_end(s, d + 1);
            lemma_last_close(s, d + 1, colon_free_end(s, d + 1));
        }
    }
}

/// `s` from index `i` on, with each mention replaced by its name.
pub open spec fn strip_from(s: Seq<char>, i: int) -> Seq<char>
    decreases s.len() - i,
{
    if i < 0 || i >= s.len() {
        Seq::empty()
    } else {
        match mention_at(s, i) {
            Some((g, e, end)) => {
                proof {
                    lemma_mention_bounds(s, i);
                }
                s.subrange(g, e) + strip_from(s, end)
            },
            None => seq![s[i]] + strip_from(s, i + 1),
        }
    }
}

/// The charter text as displayed: every mention replaced by its name.
pub open spec fn spec_display_charter(s: Seq<char>) -> Seq<char> {
    strip_from(s, 0)
}


/// A run of digits from `k` that stops at a non-digit `stop` ends there.
proof fn lemma_digits_end_at(s: Seq<char>, k: int, stop: int)
    requires
        0 <= k <= stop < s.len(),
        forall|j: int| k <= j < stop ==> is_ascii_digit(#[trigger] s[j]),
        !is_ascii_digit(s[stop]),
    ensures
        digits_end(s, k) == stop,
    decreases stop - k,
{
    if k < stop {
        lemma_digits_end_at(s, k + 1, stop);
    }
}

/// A run free of `:` from `k` to the end of the text ends at the end.
proof fn lemma_colon_free_to_end(s: Seq<char>, k: int)
    requires
        0 <= k <= s.len(),
        forall|j: int| k <= j < s.len() ==> #[trigger] s[j] != ':',
    ensures
        colon_free_end(s, k) == s.len(),
    decreases s.len() - k,
{
    if k < s.len() {
        lemma_colon_free_to_end(s, k + 1);
    }
}

/// Text from index `i` on that holds no `[` is displayed as it is.
proof fn lemma_strip_plain(s: Seq<char>, i: int)
    requires
        0 <= i <= s.len(),
        forall|k: int| i <= k < s.len() ==> #[trigger] s[k] != '[',
    ensures
        strip_from(s, i) == s.subrange(i, s.len() as int),
    decreases s.len() - i,
{
    if i < s.len() {
        lemma_strip_plain(s, i + 1);
        assert(seq![s[i]] + s.subrange(i + 1, s.len() as int) =~= s.subrange(i, s.len() as int));
    } else {
        assert(s.subrange(i, s.len() as int) =~= Seq::<char>::empty());
    }
}

/// Replacing mentions never lengthens the text from index `i` on.
proof fn lemma_strip_len(s: Seq<char>, i: int)
    requires
        0 <= i <= s.len(),
    ensures
        strip_from(s, i).len() <= s.len() - i,
    decreases s.len() - i,
{
    if i < s.len() {
        lemma_mention_bounds(s, i);
        match mention_at(s, i) {
            Some((g, e, end)) => lemma_strip_len(s, end),
            None => lemma_strip_len(s, i + 1),
        }
    }
}

/// Text without any `[` is displayed unchanged.
pub proof fn law_plain_text_unchanged(s: Seq<char>)
    requires
        forall|k: int| 0 <= k < s.len() ==> #[trigger] s[k] != '[',
    ensures
        spec_display_charter(s) == s,
{
    lemma_strip_plain(s, 0);
    assert(s.subrange(0, s.len() as int) =~= s);
}

/// The displayed charter is never longer than the charter text.
pub proof fn law_display_not_longer(s: Seq<char>)
    ensures
        spec_display_charter(s).len() <= s.len(),
{
    lemma_strip_len(s, 0);
}

/// A charter that is a single mention `[!:<id>:<name>]`, with a non-empty
/// all-digit id and a name without `:`, is displayed as the name alone.
pub proof fn law_mention_shows_name(id: Seq<char>, name: Seq<char>)
    requires
        id.len() > 0,
        forall|k: int| 0 <= k < id.len() ==> is_ascii_digit(#[trigger] id[k]),
        forall|k: int| 0 <= k < name.len() ==> #[trigger] name[k] != ':',
    ensures
        spec_display_charter(seq!['[', '!', ':'] + id + seq![':'] + name + seq![']']) == name,
{
    let s = seq!['[', '!', ':'] + id + seq![':'] + name + seq![']'];
    let m = id.len() as int;
    let n = name.len() as int;
    assert(s.len() == 5 + m + n);
    assert forall|j: int| 3 <= j < 3 + m implies is_ascii_digit(#[trigger] s[j]) by {
        assert(s[j] == id[j - 3]);
    }
    assert(s[3 + m] == ':');
    lemma_digits_end_at(s, 3, 3 + m);
    assert forall|j: int| 4 + m <= j < s.len() implies #[trigger] s[j] != ':' by {
        if j < 4 + m + n {
            assert(s[j] == name[j - 4 - m]);
        } else {
            assert(s[j] == ']');
        }
    }
    lemma_colon_free_to_end(s, 4 + m);
    assert(s[s.len() - 1] == ']');
    assert(last_close(s, 4 + m, s.len() as int) == Some(4 + m + n));
    assert(mention_at(s, 0) == Some((4 + m, 4 + m + n, 5 + m + n)));
    assert(s.subrange(4 + m, 4 + m + n) =~= name);
    assert(strip_from(s, 5 + m + n) == Seq::<char>::empty());
    assert(strip_from(s, 0) =~= name);
}

/// Runs of digits in a text's suffix end at the same place in the whole text.
proof fn lemma_digits_end_shift(q: Seq<char>, s: Seq<char>, k: int)
    requires
        0 <= k <= s.len(),
    ensures
        digits_end(q + s, q.len() + k) == q.len() + digits_end(s, k),
    decreases s.len() - k,
{
    let t = q + s;
    if k < s.len() {
        assert(t[q.len() + k] == s[k]);
        if is_ascii_digit(s[k]) {
            lemma_digits_end_shift(q, s, k + 1);
        }
    }
}

/// Runs free of `:` in a text's suffix end at the same place in the whole text.
proof fn lemma_colon_free_end_shift(q: Seq<char>, s: Seq<char>, k: int)
    requires
        0 <= k <= s.len(),
    ensures
        colon_free_end(q + s, q.len() + k) == q.len() + colon_free_end(s, k),
    decreases s.len() - k,
{
    let t = q + s;
    if k < s.len() {
        assert(t[q.len() + k] == s[k]);
        if s[k] != ':' {
            lemma_colon_free_end_shift(q, s, k + 1);
        }
    }
}

/// The last `]` of a range of a text's suffix is the same in the whole text.
proof fn lemma_last_close_shift(q: Seq<char>, s: Seq<char>, lo: int, hi: int)
    requires
        0 <= lo,
        hi <= s.len(),
    ensures
        last_close(q + s, q.len() + lo, q.len() + hi) == match last_close(s, lo, hi) {
            Some(e) => Some(q.len() + e),
            None => None::<int>,
        },
    decreases hi - lo,
{
    let t = q + s;
    if hi > lo {
        assert(t[q.len() + hi - 1] == s[hi - 1]);
        if s[hi - 1] != ']' {
            lemma_last_close_shift(q, s, lo, hi - 1);
        }
    }
}

/// A mention in a text's suffix is the same mention in the whole text.
proof fn lemma_mention_shift(q: Seq<char>, s: Seq<char>, k: int)
    requires
        0 <= k <= s.len(),
    ensures
        mention_at(q + s, q.len() + k) == match mention_at(s, k) {
            Some((g, e, end)) => Some((q.len() + g, q.len() + e, q.len() + end)),
            None => None::<(int, int, int)>,
        },
{
    let t = q + s;
    let o = q.len() as int;
    if k + 3 <= s.len() {
        assert(t[o + k] == s[k] && t[o + k + 1] == s[k + 1] && t[o + k + 2] == s[k + 2]);
        if s[k] == '[' && s[k + 1] == '!' && s[k + 2] == ':' {
            lemma_digits_end_shift(q, s, k + 3);
            lemma_digits_end(s, k + 3);
            let d = digits_end(s, k + 3);
            if d < s.len() {
                assert(t[o + d] == s[d]);
            }
            if d > k + 3 && d < s.len() && s[d] == ':' {
                lemma_colon_free_end_shift(q, s, d + 1);
                lemma_colon_free_end(s, d + 1);
                lemma_last_close_shift(q, s, d + 1, colon_free_end(s, d + 1));
            }
        }
    }
}

/// The display of a text's suffix is the same whether it is read alone or
/// within the whole text.
proof fn lemma_strip_shift(q: Seq<char>, s: Seq<char>, k: int)
    requires
        0 <= k <= s.len(),
    ensures
        strip_from(q + s, q.len() + k) == strip_from(s, k),
    decreases s.len() - k,
{
    let t = q + s;
    let o = q.len() as int;
    if k < s.len() {
        lemma_mention_shift(q, s, k);
        lemma_mention_bounds(s, k);
        match mention_at(s, k) {
            Some((g, e, end)) => {
                lemma_strip_shift(q, s, end);
                assert(t.subrange(o + g, o + e) =~= s.subrange(g, e));
            },
            None => {
                assert(t[o + k] == s[k]);
                lemma_strip_shift(q, s, k + 1);
            },
        }
    }
}

/// A prefix without `[` is displayed as it is, before the rest.
proof fn lemma_strip_plain_prefix(p: Seq<char>, r: Seq<char>, i: int)
    requires
        0 <= i <= p.len(),
        forall|k: int| 0 <= k < p.len() ==> #[trigger] p[k] != '[',
    ensures
        strip_from(p + r, i) == p.subrange(i, p.len() as int) + strip_from(p + r, p.len() as int),
    decreases p.len() - i,
{
    let t = p + r;
    if i < p.len() {
        assert(t[i] == p[i]);
        lemma_strip_plain_prefix(p, r, i + 1);
        assert(seq![t[i]] + p.subrange(i + 1, p.len() as int) =~= p.subrange(i, p.len() as int));
        assert(strip_from(t, i) =~= seq![t[i]] + strip_from(t, i + 1));
    } else {
        assert(p.subrange(i, p.len() as int) =~= Seq::<char>::empty());
    }
}

/// A range free of `:` can be skipped when looking for the next `:`.
proof fn lemma_colon_free_skip(t: Seq<char>, k: int, k2: int)
    requires
        0 <= k <= k2 <= t.len(),
        forall|j: int| k <= j < k2 ==> #[trigger] t[j] != ':',
    ensures
        colon_free_end(t, k) == colon_free_end(t, k2),
    decreases k2 - k,
{
    if k < k2 {
        lemma_colon_free_skip(t, k + 1, k2);
    }
}

/// A `]` with none after it in the range is the range's last `]`.
proof fn lemma_last_close_at(t: Seq<char>, lo: int, hi: int, x: int)
    requires
        0 <= lo <= x < hi <= t.len(),
        t[x] == ']',
        forall|j: int| x < j < hi ==> #[trigger] t[j] != ']',
    ensures
        last_close(t, lo, hi) == Some(x),
    decreases hi - lo,
{
    if hi - 1 != x {
        lemma_last_close_at(t, lo, hi - 1, x);
    }
}

/// The text of the mention of user `id` named `name`: `[!:<id>:<name>]`.
pub open spec fn mention_text(id: Seq<char>, name: Seq<char>) -> Seq<char> {
    seq!['[', '!', ':'] + id + seq![':'] + name + seq![']']
}

/// Every `]` of `s` comes after a `:`: nothing in `s` can extend the name of a
/// mention that `s` follows.
pub open spec fn no_close_before_colon(s: Seq<char>) -> bool {
    forall|k: int|
        0 <= k < s.len() && s[k] == ']' ==> exists|j: int| 0 <= j < k && #[trigger] s[j] == ':'
}

/// A mention is replaced by its name wherever it stands: after any text `p`
/// without `[`, and before any text `s` that cannot extend its name, the
/// display of `p`, the mention and `s` is `p`, the name, and the display of `s`.
pub proof fn law_mention_anywhere(p: Seq<char>, id: Seq<char>, name: Seq<char>, s: Seq<char>)
    requires
        forall|k: int| 0 <= k < p.len() ==> #[trigger] p[k] != '[',
        id.len() > 0,
        forall|k: int| 0 <= k < id.len() ==> is_ascii_digit(#[trigger] id[k]),
        forall|k: int| 0 <= k < name.len() ==> #[trigger] name[k] != ':',
        no_close_before_colon(s),
    ensures
        spec_display_charter(p + mention_text(id, name) + s) == p + name + spec_display_charter(s),
{
    let m = mention_text(id, name);
    let t = p + m + s;
    let pl = p.len() as int;
    let a = id.len() as int;
    let n = name.len() as int;
    let ml = m.len() as int;
    assert(ml == 5 + a + n);
    assert(t =~= p + (m + s));
    lemma_strip_plain_prefix(p, m + s, 0);
    assert(p.subrange(0, pl) =~= p);
    // The mention at `pl`.
    assert(t[pl] == '[' && t[pl + 1] == '!' && t[pl + 2] == ':');
    assert forall|j: int| pl + 3 <= j < pl + 3 + a implies is_ascii_digit(#[trigger] t[j]) by {
        assert(t[j] == id[j - pl - 3]);
    }
    assert(t[pl + 3 + a] == ':');
    lemma_digits_end_at(t, pl + 3, pl + 3 + a);
    assert forall|j: int| pl + 4 + a <= j < pl + ml implies #[trigger] t[j] != ':' by {
        if j < pl + 4 + a + n {
            assert(t[j] == name[j - pl - 4 - a]);
        } else {
            assert(t[j] == ']');
        }
    }
    lemma_colon_free_skip(t, pl + 4 + a, pl + ml);
    assert(t == (p + m) + s);
    lemma_colon_free_end_shift(p + m, s, 0);
    lemma_colon_free_end(s, 0);
    let c = colon_free_end(s, 0);
    assert(colon_free_end(t, pl + 4 + a) == pl + ml + c);
    assert(t[pl + ml - 1] == ']');
    assert forall|j: int| pl + ml - 1 < j < pl + ml + c implies #[trigger] t[j] != ']' by {
        let k = j - pl - ml;
        assert(t[j] == s[k]);
        if s[k] == ']' {
            let w = choose|w: int| 0 <= w < k && #[trigger] s[w] == ':';
            assert(s[w] != ':');
        }
    }
    lemma_last_close_at(t, pl + 4 + a, pl + ml + c, pl + ml - 1);
    assert(mention_at(t, pl) == Some((pl + 4 + a, pl + ml - 1, pl + ml)));
    assert(t.subrange(pl + 4 + a, pl + ml - 1) =~= name);
    assert(strip_from(t, pl) == name + strip_from(t, pl + ml));
    lemma_strip_shift(p + m, s, 0);
    assert(strip_from(t, 0) =~= p + name + strip_from(s, 0));
}

/// Two mentions joined by ` & ` are displayed as their two names joined by ` & `,
/// whatever their ids and names (names without `:`).
pub proof fn law_two_mentions(id1: Seq<char>, name1: Seq<char>, id2: Seq<char>, name2: Seq<char>)
    requires
        id1.len() > 0,
        id2.len() > 0,
        forall|k: int| 0 <= k < id1.len() ==> is_ascii_digit(#[trigger] id1[k]),
        forall|k: int| 0 <= k < id2.len() ==> is_ascii_digit(#[trigger] id2[k]),
        forall|k: int| 0 <= k < name1.len() ==> #[trigger] name1[k] != ':',
        forall|k: int| 0 <= k < name2.len() ==> #[trigger] name2[k] != ':',
    ensures
        spec_display_charter(mention_text(id1, name1) + seq![' ', '&', ' '] + mention_text(id2, name2))
            == name1 + seq![' ', '&', ' '] + name2,
{
    let amp = seq![' ', '&', ' '];
    let empty = Seq::<char>::empty();
    assert(no_close_before_colon(empty));
    law_mention_anywhere(amp, id2, name2, empty);
    assert(amp + mention_text(id2, name2) + empty =~= amp + mention_text(id2, name2));
    assert(spec_display_charter(empty) =~= empty) by {
        assert(strip_from(empty, 0) == Seq::<char>::empty());
    }
    let rest = amp + mention_text(id2, name2);
    assert(rest[5] == ':');
    assert forall|k: int| 0 <= k < rest.len() && rest[k] == ']' implies exists|j: int|
        0 <= j < k && #[trigger] rest[j] == ':' by {
        assert(k > 5) by {
            if k <= 5 {
                assert(rest[k] != ']');
            }
        }
        assert(rest[5] == ':');
    }
    law_mention_anywhere(empty, id1, name1, rest);
    assert(empty + mention_text(id1, name1) + rest =~= mention_text(id1, name1) + amp + mention_text(id2, name2));
    assert(empty + name1 + (amp + name2 + empty) =~= name1 + amp + name2);
}

/// The mention that starts at index `i` of `cs`, if one does.
fn find_mention(cs: &Vec<char>, i: usize) -> (r: Option<(usize, usize, usize)>)
    requires
        i <= cs.len(),
    ensures
        match r {
            Some((g, e, end)) => mention_at(cs@, i as int) == Some((g as int, e as int, end as int)),
            None => mention_at(cs@, i as int) is None,
        },
{
    let n = cs.len();
    if n - i < 3 || cs[i] != '[' || cs[i + 1] != '!' || cs[i + 2] != ':' {
        return None;
    }
    let ghost s = cs@;
    let mut d = i + 3;
    while d < n && '0' <= cs[d] && cs[d] <= '9'
        invariant
            s == cs@,
            n == s.len(),
            i + 3 <= d <= n,
            digits_end(s, d as int) == digits_end(s, i + 3),
        decreases n - d,
    {
        d = d + 1;
    }
    if d == i + 3 || d >= n || cs[d] != ':' {
        return None;
    }
    let g = d + 1;
    let mut h = g;
    while h < n && cs[h] != ':'
        invariant
            s == cs@,
            n == s.len(),
            g <= h <= n,
            colon_free_end(s, h as int) == colon_free_end(s, g as int),
        decreases n - h,
    {
        h = h + 1;
    }
    let mut e = h;
    while e > g && cs[e - 1] != ']'
        invariant
            s == cs@,
            n == s.len(),
            g <= e <= h <= n,
            last_close(s, g as int, e as int) == last_close(s, g as int, h as int),
        decreases e,
    {
        e = e - 1;
    }
    if e == g {
        None
    } else {
        Some((g, e - 1, e))
    }
}

/// The charter text as displayed: every `[!:<id>:<name>]` mention replaced by
/// its name, the rest of the text kept as it is.
pub fn display_charter(charter: &str) -> (r: String)
    ensures
        r@ == spec_display_charter(charter@),
{
    let cs = chars_of(charter);
    let ghost s = cs@;
    let mut out = String::new();
    let mut i: usize = 0;
    while i < cs.len()
        invariant
            s == cs@,
            s == charter@,
            i <= s.len(),
            out@ + strip_from(s, i as int) == strip_from(s, 0),
        decreases s.len() - i,
    {
        match find_mention(&cs, i) {
            Some((g, e, end)) => {
                proof {
                    lemma_mention_bounds(s, i as int);
                }
                let ghost before = out@;
                let mut k = g;
                while k < e
                    invariant
                        s == cs@,
                        g <= k <= e,
                        e < s.len(),
                        out@ == before + s.subrange(g as int, k as int),
                    decreases e - k,
                {
                    push_char(&mut out, cs[k]);
                    k = k + 1;
                    assert(s.subrange(g as int, k as int) =~= s.subrange(g as int, k - 1 as int).push(
                        s[k - 1],
                    ));
                }
                assert(before + strip_from(s, i as int) =~= before + s.subrange(g as int, e as int)
                    + strip_from(s, end as int));
                i = end;
            },
            None => {
                let ghost before = out@;
                push_char(&mut out, cs[i]);
                assert(before + strip_from(s, i as int) =~= out@ + strip_from(s, i + 1));
                i = i + 1;
            },
        }
    }
    assert(out@ + strip_from(s, i as int) =~= out@);
    out
}

} // verus!
