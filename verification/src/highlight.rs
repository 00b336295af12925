//! Search-mode highlighting of a table cell: the cell text split into the
//! pieces that match a keyword of the query and the pieces that do not.

use vstd::prelude::*;
use crate::text::{
    chars_of, lowercase_of, matches_at, occurs_at, split_whitespace, to_lowercase, views, ws_words,
};

verus! {

/// Position `q` lies inside a match of `p` found by scanning `h` left to right
/// from `from`, the way `str::match_indices` finds non-overlapping matches.
pub open spec fn covered_by(h: Seq<char>, p: Seq<char>, from: int, q: int) -> bool
    decreases h.len() - from,
{
    if p.len() == 0 || from < 0 || from + p.len() > h.len() {
        false
    } else if occurs_at(h, p, from) {
        (from <= q && q < from + p.len()) || covered_by(h, p, from + p.len(), q)
    } else {
        covered_by(h, p, from + 1, q)
    }
}

/// Position `q` lies inside a match of one of the first `k` patterns.
pub open spec fn covered_upto(h: Seq<char>, pats: Seq<Seq<char>>, k: int, q: int) -> bool
    decreases k,
{
    if k <= 0 {
        false
    } else {
        covered_upto(h, pats, k - 1, q) || covered_by(h, pats[k - 1], 0, q)
    }
}

/// Which positions of `h` lie inside a match of some pattern.
pub open spec fn match_mask(h: Seq<char>, pats: Seq<Seq<char>>) -> Seq<bool> {
    Seq::new(h.len(), |q: int| covered_upto(h, pats, pats.len() as int, q))
}

/// The text cut into maximal runs of positions with the same flag, in order.
pub open spec fn flag_runs(t: Seq<char>, m: Seq<bool>) -> Seq<(Seq<char>, bool)>
    decreases t.len(),
{
    if t.len() == 0 {
        seq![]
    } else {
        let prev = flag_runs(t.drop_last(), m);
        let f = m[t.len() - 1];
        if prev.len() > 0 && prev.last().1 == f {
            prev.drop_last().push((prev.last().0.push(t.last()), f))
        } else {
            prev.push((seq![t.last()], f))
        }
    }
}

/// The character views of a list of character vectors.
pub open spec fn char_views(v: Seq<Vec<char>>) -> Seq<Seq<char>> {
    v.map_values(|w: Vec<char>| w@)
}

/// How many bytes UTF-8 gives a character.
pub open spec fn utf8_len(c: char) -> int {
    let v = c as int;
    if v < 0x80 {
        1
    } else if v < 0x800 {
        2
    } else if v < 0x10000 {
        3
    } else {
        4
    }
}

/// The length of a text in UTF-8 bytes.
pub open spec fn byte_len(s: Seq<char>) -> int
    decreases s.len(),
{
    if s.len() == 0 {
        0
    } else {
        byte_len(s.drop_last()) + utf8_len(s.last())
    }
}

/// Flags of the characters of `s` spread over its UTF-8 bytes: each
/// character's flag once for each of its bytes.
pub open spec fn byte_flags(s: Seq<char>, m: Seq<bool>) -> Seq<bool>
    decreases s.len(),
{
    if s.len() == 0 {
        seq![]
    } else {
        byte_flags(s.drop_last(), m) + Seq::new(utf8_len(s.last()) as nat, |k: int| m[s.len() - 1])
    }
}

/// The flag of byte `b`; a byte past the end has none.
pub open spec fn flag_at(f: Seq<bool>, b: int) -> bool {
    0 <= b < f.len() && f[b]
}

/// The `w` bytes from `start` all carry the same flag.
pub open spec fn same_flag(f: Seq<bool>, start: int, w: int) -> bool
    decreases w,
{
    if w <= 1 {
        true
    } else {
        same_flag(f, start, w - 1) && flag_at(f, start + w - 1) == flag_at(f, start)
    }
}

/// Byte flags read at the bytes of `t`: each character takes the flag of
/// its first byte.
pub open spec fn char_flags(t: Seq<char>, f: Seq<bool>) -> Seq<bool> {
    Seq::new(t.len(), |j: int| flag_at(f, byte_len(t.take(j))))
}

/// The flagged bytes lie within `t`, and none of its characters has bytes
/// with different flags, so every cut falls between two characters of `t`.
pub open spec fn aligned(t: Seq<char>, f: Seq<bool>) -> bool {
    &&& forall|b: int| 0 <= b < f.len() && #[trigger] f[b] ==> b < byte_len(t)
    &&& forall|j: int|
        0 <= j < t.len() ==> #[trigger] same_flag(f, byte_len(t.take(j)), utf8_len(t[j]))
}

/// The lower-cased words of a query.
pub open spec fn keyword_patterns(q: Seq<char>) -> Seq<Seq<char>> {
    ws_words(q).map_values(|w: Seq<char>| lowercase_of(w))
}

/// Which characters of the lower-cased text lie inside a match of a
/// lower-cased word of the query.
pub open spec fn lowered_mask(t: Seq<char>, q: Seq<char>) -> Seq<bool> {
    match_mask(lowercase_of(t), keyword_patterns(q))
}

/// Which bytes of the lower-cased text lie inside such a match.
pub open spec fn keyword_bytes(t: Seq<char>, q: Seq<char>) -> Seq<bool> {
    byte_flags(lowercase_of(t), lowered_mask(t, q))
}

/// The query has a word, and some word occurs in the lower-cased text.
pub open spec fn highlights(t: Seq<char>, q: Seq<char>) -> bool {
    &&& q.len() > 0
    &&& ws_words(q).len() > 0
    &&& exists|p: int| 0 <= p < lowercase_of(t).len() && #[trigger] lowered_mask(t, q)[p]
}

/// The byte ranges of the matches, found in the lower-cased text, can be
/// cut out of the text itself: they end within it and on character
/// boundaries. Otherwise cutting the text there fails.
pub open spec fn highlight_defined(t: Seq<char>, q: Seq<char>) -> bool {
    highlights(t, q) ==> aligned(t, keyword_bytes(t, q))
}

/// The pieces a cell shows for a query: the whole text unhighlighted when the
/// query has no word or no word occurs; otherwise the text cut at the byte
/// positions where "inside a match" changes, the matches being found on the
/// lower-cased text with the lower-cased words.
pub open spec fn highlight_spec(t: Seq<char>, q: Seq<char>) -> Seq<(Seq<char>, bool)> {
    if highlights(t, q) {
        flag_runs(t, char_flags(t, keyword_bytes(t, q)))
    } else {
        seq![(t, false)]
    }
}

/// One piece of a highlighted cell.
#[derive(Clone, Debug)]
pub struct HighlightSegment {
    pub text: String,
    pub highlighted: bool,
}

/// The text and flag of each piece.
pub open spec fn segment_views(v: Seq<HighlightSegment>) -> Seq<(Seq<char>, bool)> {
    v.map_values(|s: HighlightSegment| (s.text@, s.highlighted))
}

/// A scan that starts after `q` never covers `q`.
pub proof fn lemma_not_covered_before(h: Seq<char>, p: Seq<char>, from: int, q: int)
    requires
        q < from,
    ensures
        !covered_by(h, p, from, q),
    decreases h.len() - from,
{
    if !(p.len() == 0 || from < 0 || from + p.len() > h.len()) {
        if occurs_at(h, p, from) {
            lemma_not_covered_before(h, p, from + p.len(), q);
        } else {
            lemma_not_covered_before(h, p, from + 1, q);
        }
    }
}

/// Marks every position of `h` covered by a match of one of `pats`.
pub fn match_positions(h: &Vec<char>, pats: &Vec<Vec<char>>) -> (r: Vec<bool>)
    ensures
        r@ == match_mask(h@, char_views(pats@)),
{
    let ghost ps = char_views(pats@);
    let n = h.len();
    let mut mask: Vec<bool> = Vec::new();
    let mut i: usize = 0;
    while i < n
        invariant
            n == h@.len(),
            i <= n,
            mask@.len() == i,
            forall|q: int| 0 <= q < i ==> !mask@[q],
        decreases n - i,
    {
        mask.push(false);
        i = i + 1;
    }
    let mut k: usize = 0;
    while k < pats.len()
        invariant
            n == h@.len(),
            ps == char_views(pats@),
            k <= pats@.len(),
            mask@.len() == n,
            forall|q: int| 0 <= q < n ==> mask@[q] == covered_upto(h@, ps, k as int, q),
        decreases pats@.len() - k,
    {
        let p = &pats[k];
        let plen = p.len();
        assert(ps[k as int] == p@);
        if plen > 0 {
            let mut from: usize = 0;
            while from <= n && plen <= n - from
                invariant
                    n == h@.len(),
                    plen == p@.len(),
                    plen > 0,
                    ps == char_views(pats@),
                    k < pats@.len(),
                    ps[k as int] == p@,
                    mask@.len() == n,
                    forall|q: int|
                        0 <= q < n ==> mask@[q] == (covered_upto(h@, ps, k as int, q) || (q < from
                            && covered_by(h@, p@, 0, q))),
                    forall|q: int|
                        q >= from ==> #[trigger] covered_by(h@, p@, 0, q) == covered_by(
                            h@,
                            p@,
                            from as int,
                            q,
                        ),
                decreases n - from,
            {
                if matches_at(h, p, from) {
                    let end = from + plen;
                    let mut j: usize = from;
                    let ghost before = mask@;
                    while j < end
                        invariant
                            from <= j <= end,
                            end == from + plen,
                            end <= n,
                            mask@.len() == n,
                            before.len() == n,
                            forall|q: int|
                                0 <= q < n ==> mask@[q] == (before[q] || (from <= q && q < j)),
                        decreases end - j,
                    {
                        mask.set(j, true);
                        j = j + 1;
                    }
                    assert forall|q: int| q >= end implies #[trigger] covered_by(h@, p@, 0, q)
                        == covered_by(h@, p@, end as int, q) by {
                        assert(covered_by(h@, p@, 0, q) == covered_by(h@, p@, from as int, q));
                    }
                    assert forall|q: int| 0 <= q < n implies mask@[q] == (covered_upto(
                        h@,
                        ps,
                        k as int,
                        q,
                    ) || (q < end && covered_by(h@, p@, 0, q))) by {
                        assert(mask@[q] == (before[q] || (from <= q && q < end)));
                        assert(before[q] == (covered_upto(h@, ps, k as int, q) || (q < from
                            && covered_by(h@, p@, 0, q))));
                        if from <= q && q < end {
                            assert(occurs_at(h@, p@, from as int));
                            assert(covered_by(h@, p@, from as int, q));
                            assert(covered_by(h@, p@, 0, q) == covered_by(h@, p@, from as int, q));
                        }
                    }
                    from = end;
                } else {
                    assert forall|q: int| q >= from + 1 implies #[trigger] covered_by(
                        h@,
                        p@,
                        0,
                        q,
                    ) == covered_by(h@, p@, from + 1, q) by {
                        assert(covered_by(h@, p@, 0, q) == covered_by(h@, p@, from as int, q));
                    }
                    assert forall|q: int| 0 <= q < n implies mask@[q] == (covered_upto(
                        h@,
                        ps,
                        k as int,
                        q,
                    ) || (q < from + 1 && covered_by(h@, p@, 0, q))) by {
                        if q == from {
                            assert(covered_by(h@, p@, 0, q) == covered_by(h@, p@, from as int, q));
                            lemma_not_covered_before(h@, p@, from + 1, q);
                        }
                    }
                    from = from + 1;
                }
            }
            assert forall|q: int| 0 <= q < n implies mask@[q] == covered_upto(
                h@,
                ps,
                k + 1,
                q,
            ) by {
                if q >= from {
                    assert(covered_by(h@, p@, 0, q) == covered_by(h@, p@, from as int, q));
                }
            }
        } else {
            assert forall|q: int| 0 <= q < n implies mask@[q] == covered_upto(
                h@,
                ps,
                k + 1,
                q,
            ) by {
                assert(!covered_by(h@, p@, 0, q));
            }
        }
        k = k + 1;
    }
    assert(mask@ =~= match_mask(h@, ps));
    mask
}

/// Cuts `text` into maximal runs of equal flags.
pub fn runs_by_flag(text: &str, m: &Vec<bool>) -> (r: Vec<HighlightSegment>)
    requires
        m@.len() == text@.len(),
    ensures
        segment_views(r@) == flag_runs(text@, m@),
{
    let n = text.unicode_len();
    let mut out: Vec<HighlightSegment> = Vec::new();
    if n == 0 {
        assert(segment_views(out@) =~= flag_runs(text@, m@));
        return out;
    }
    let mut st: usize = 0;
    let mut cur: bool = m[0];
    let mut i: usize = 1;
    proof {
        let t1 = text@.subrange(0, 1);
        assert(t1.drop_last() =~= Seq::<char>::empty());
        assert(flag_runs(t1.drop_last(), m@) =~= Seq::<(Seq<char>, bool)>::empty());
        assert(t1.last() == text@[0]);
        assert(seq![text@[0]] =~= text@.subrange(0, 1));
    }
    while i < n
        invariant
            n == text@.len(),
            m@.len() == n,
            1 <= i <= n,
            st < i,
            cur == m@[st as int],
            forall|j: int| st <= j < i ==> m@[j] == cur,
            segment_views(out@).len() == 0 || segment_views(out@).last().1 != cur,
            flag_runs(text@.subrange(0, i as int), m@) == segment_views(out@).push(
                (text@.subrange(st as int, i as int), cur),
            ),
        decreases n - i,
    {
        let ghost p = text@.subrange(0, i + 1);
        assert(p.drop_last() =~= text@.subrange(0, i as int));
        assert(p.last() == text@[i as int]);
        let f = m[i];
        if f == cur {
            assert(text@.subrange(st as int, i + 1) =~= text@.subrange(st as int, i as int).push(
                text@[i as int],
            ));
        } else {
            let piece = String::from_str(text.substring_char(st, i));
            let ghost before = out@;
            out.push(HighlightSegment { text: piece, highlighted: cur });
            assert(segment_views(out@) =~= segment_views(before).push(
                (text@.subrange(st as int, i as int), cur),
            ));
            assert(seq![text@[i as int]] =~= text@.subrange(i as int, i + 1));
            st = i;
            cur = f;
        }
        i = i + 1;
    }
    assert(text@.subrange(0, n as int) =~= text@);
    let piece = String::from_str(text.substring_char(st, n));
    let ghost before = out@;
    out.push(HighlightSegment { text: piece, highlighted: cur });
    assert(segment_views(out@) =~= segment_views(before).push(
        (text@.subrange(st as int, n as int), cur),
    ));
    out
}

/// How many bytes UTF-8 gives a character.
fn utf8_width(c: char) -> (r: usize)
    ensures
        r == utf8_len(c),
        1 <= r <= 4,
{
    let v = c as u32;
    if v < 0x80 {
        1
    } else if v < 0x800 {
        2
    } else if v < 0x10000 {
        3
    } else {
        4
    }
}

/// A text takes at most four bytes a character.
proof fn lemma_byte_len_bounds(s: Seq<char>)
    ensures
        s.len() <= byte_len(s) <= 4 * s.len(),
    decreases s.len(),
{
    if s.len() > 0 {
        lemma_byte_len_bounds(s.drop_last());
    }
}

/// One more character adds its own bytes.
proof fn lemma_byte_len_take(s: Seq<char>, j: int)
    requires
        0 <= j < s.len(),
    ensures
        byte_len(s.take(j + 1)) == byte_len(s.take(j)) + utf8_len(s[j]),
{
    assert(s.take(j + 1).drop_last() =~= s.take(j));
    assert(s.take(j + 1).last() == s[j]);
}

/// The flag of byte `b` of `f`.
fn flag_of(f: &Vec<bool>, b: u128) -> (r: bool)
    ensures
        r == flag_at(f@, b as int),
{
    if b < f.len() as u128 {
        f[b as usize]
    } else {
        false
    }
}

/// Reads byte flags back per character of `text`, or `None` when a flagged
/// byte lies past the text or a character of it has bytes flagged apart.
fn char_mask(text: &str, f: &Vec<bool>) -> (r: Option<Vec<bool>>)
    ensures
        r is Some <==> aligned(text@, f@),
        r matches Some(m) ==> m@ == char_flags(text@, f@),
{
    let cs = chars_of(text);
    let n = cs.len();
    let ghost t = text@;
    let mut pos: u128 = 0;
    let mut m: Vec<bool> = Vec::new();
    let mut j: usize = 0;
    proof {
        assert(t.take(0) =~= Seq::<char>::empty());
    }
    while j < n
        invariant
            cs@ == t,
            t == text@,
            n == t.len(),
            j <= n,
            pos == byte_len(t.take(j as int)),
            m@.len() == j,
            forall|i: int| 0 <= i < j ==> #[trigger] m@[i] == flag_at(f@, byte_len(t.take(i))),
            forall|i: int|
                0 <= i < j ==> #[trigger] same_flag(f@, byte_len(t.take(i)), utf8_len(t[i])),
        decreases n - j,
    {
        let c = cs[j];
        let w = utf8_width(c);
        proof {
            lemma_byte_len_take(t, j as int);
            lemma_byte_len_bounds(t.take(j as int));
        }
        let first = flag_of(f, pos);
        let mut ok = true;
        let mut k: usize = 1;
        while k < w
            invariant
                1 <= k <= w,
                w <= 4,
                pos + 4 <= 4 * (j + 1),
                j < n,
                first == flag_at(f@, pos as int),
                ok == same_flag(f@, pos as int, k as int),
            decreases w - k,
        {
            let b = flag_of(f, pos + k as u128);
            ok = ok && b == first;
            k = k + 1;
        }
        if !ok {
            assert(!same_flag(f@, byte_len(t.take(j as int)), utf8_len(t[j as int])));
            return None;
        }
        m.push(first);
        pos = pos + w as u128;
        j = j + 1;
    }
    assert(t.take(n as int) =~= t);
    let flen = f.len();
    let start: usize = if pos < flen as u128 {
        pos as usize
    } else {
        flen
    };
    let mut b: usize = start;
    while b < flen
        invariant
            flen == f@.len(),
            start <= b <= flen,
            pos == byte_len(t),
            t == text@,
            start < flen ==> start == pos,
            forall|x: int| start <= x < b ==> !f@[x],
        decreases flen - b,
    {
        if f[b] {
            assert(f@[b as int] && b as int >= byte_len(t));
            return None;
        }
        b = b + 1;
    }
    assert(m@ =~= char_flags(t, f@));
    Some(m)
}

/// The byte flags of the keyword matches in the lower-cased text, or `None`
/// when the query highlights nothing.
fn keyword_byte_flags(text: &str, query: &str) -> (r: Option<Vec<bool>>)
    ensures
        r is Some <==> highlights(text@, query@),
        r matches Some(f) ==> f@ == keyword_bytes(text@, query@),
{
    let ghost kws = ws_words(query@);
    let ghost low = lowercase_of(text@);
    let ghost pats = keyword_patterns(query@);
    if query.unicode_len() == 0 {
        return None;
    }
    let words = split_whitespace(query);
    if words.len() == 0 {
        assert(views(words@).len() == 0);
        return None;
    }
    let lowered = to_lowercase(text);
    let low_chars = chars_of(lowered.as_str());
    let mut lowered_words: Vec<Vec<char>> = Vec::new();
    let mut k: usize = 0;
    while k < words.len()
        invariant
            views(words@) == kws,
            k <= words@.len(),
            lowered_words@.len() == k,
            pats == kws.map_values(|w: Seq<char>| lowercase_of(w)),
            forall|j: int| 0 <= j < k ==> #[trigger] lowered_words@[j]@ == pats[j],
        decreases words@.len() - k,
    {
        let lw = to_lowercase(words[k].as_str());
        assert(words@[k as int]@ == kws[k as int]);
        lowered_words.push(chars_of(lw.as_str()));
        k = k + 1;
    }
    assert(char_views(lowered_words@) =~= pats);
    let m = match_positions(&low_chars, &lowered_words);
    assert(m@ == lowered_mask(text@, query@));
    let mut any = false;
    let mut p: usize = 0;
    while p < m.len()
        invariant
            p <= m@.len(),
            any == exists|j: int| 0 <= j < p && m@[j],
        decreases m@.len() - p,
    {
        if m[p] {
            any = true;
        }
        p = p + 1;
    }
    if !any {
        assert forall|j: int| 0 <= j < low.len() implies !lowered_mask(text@, query@)[j] by {
            assert(!m@[j]);
        }
        return None;
    }
    proof {
        let wj = choose|j: int| 0 <= j < m@.len() && m@[j];
        assert(lowered_mask(text@, query@)[wj]);
    }
    let ghost mask = m@;
    let n = low_chars.len();
    let mut fb: Vec<bool> = Vec::new();
    let mut i: usize = 0;
    proof {
        assert(low.take(0) =~= Seq::<char>::empty());
    }
    while i < n
        invariant
            low_chars@ == low,
            n == low.len(),
            mask == m@,
            m@.len() == n,
            i <= n,
            fb@ == byte_flags(low.take(i as int), mask),
        decreases n - i,
    {
        let w = utf8_width(low_chars[i]);
        let flag = m[i];
        let ghost before = fb@;
        let mut k: usize = 0;
        while k < w
            invariant
                k <= w,
                fb@ == before + Seq::new(k as nat, |x: int| flag),
            decreases w - k,
        {
            fb.push(flag);
            k = k + 1;
            assert(fb@ =~= before + Seq::new(k as nat, |x: int| flag));
        }
        proof {
            let s = low.take(i + 1);
            assert(s.drop_last() =~= low.take(i as int));
            assert(s.last() == low[i as int]);
            assert(Seq::new(w as nat, |x: int| flag) =~= Seq::new(
                utf8_len(s.last()) as nat,
                |x: int| mask[s.len() - 1],
            ));
        }
        i = i + 1;
    }
    assert(low.take(n as int) =~= low);
    Some(fb)
}

/// The pieces a table cell shows for the query typed in search mode: pieces
/// inside a (case-insensitive) match of a word of the query are highlighted.
/// The matches are found in the lower-cased text and cut out of the text at
/// the same byte positions, which `requires` asks to fall on its character
/// boundaries; `highlight_checked` tests that first.
pub fn highlight_text(text: &str, query: &str) -> (r: Vec<HighlightSegment>)
    requires
        highlight_defined(text@, query@),
    ensures
        segment_views(r@) == highlight_spec(text@, query@),
{
    let whole = vec![HighlightSegment { text: String::from_str(text), highlighted: false }];
    assert(segment_views(whole@) =~= seq![(text@, false)]);
    match keyword_byte_flags(text, query) {
        None => whole,
        Some(f) => match char_mask(text, &f) {
            Some(m) => runs_by_flag(text, &m),
            None => whole,
        },
    }
}

/// The highlighted pieces of a cell, or `None` where the match positions
/// found in the lower-cased text cannot be cut out of the text itself.
pub fn highlight_checked(text: &str, query: &str) -> (r: Option<Vec<HighlightSegment>>)
    ensures
        r is Some <==> highlight_defined(text@, query@),
        r matches Some(v) ==> segment_views(v@) == highlight_spec(text@, query@),
{
    let defined = match keyword_byte_flags(text, query) {
        None => true,
        Some(f) => match char_mask(text, &f) {
            Some(_) => true,
            None => false,
        },
    };
    if defined {
        Some(highlight_text(text, query))
    } else {
        None
    }
}

/// The pieces put back together give the cell text unchanged.
pub open spec fn joined(v: Seq<(Seq<char>, bool)>) -> Seq<char>
    decreases v.len(),
{
    if v.len() == 0 {
        seq![]
    } else {
        joined(v.drop_last()) + v.last().0
    }
}

/// Cutting into runs loses and reorders nothing: the runs joined are the text.
pub proof fn lemma_flag_runs_join(t: Seq<char>, m: Seq<bool>)
    requires
        m.len() >= t.len(),
    ensures
        joined(flag_runs(t, m)) == t,
    decreases t.len(),
{
    if t.len() > 0 {
        lemma_flag_runs_join(t.drop_last(), m);
        let prev = flag_runs(t.drop_last(), m);
        let f = m[t.len() - 1];
        if prev.len() > 0 && prev.last().1 == f {
            let nv = prev.drop_last().push((prev.last().0.push(t.last()), f));
            assert(nv.drop_last() =~= prev.drop_last());
            assert(prev.drop_last().push(prev.last()) =~= prev);
            assert(joined(prev) == joined(prev.drop_last()) + prev.last().0);
            assert(joined(nv) =~= joined(prev) + seq![t.last()]);
        } else {
            let nv = prev.push((seq![t.last()], f));
            assert(nv.drop_last() =~= prev);
        }
        assert(t.drop_last().push(t.last()) =~= t);
    }
}

/// Highlighting never changes what a cell says: whatever the query, the
/// pieces joined in order are exactly the cell text.
pub proof fn law_highlight_preserves_text(t: Seq<char>, q: Seq<char>)
    ensures
        joined(highlight_spec(t, q)) == t,
{
    let whole = seq![(t, false)];
    assert(whole.drop_last() =~= Seq::<(Seq<char>, bool)>::empty());
    assert(joined(whole.drop_last()) =~= Seq::<char>::empty());
    assert(joined(whole) =~= t);
    if highlights(t, q) {
        lemma_flag_runs_join(t, char_flags(t, keyword_bytes(t, q)));
    }
}

} // verus!
