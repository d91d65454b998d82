use vstd::prelude::*;

verus! {

/// A character with the Unicode `White_Space` property.
pub open spec fn spec_is_whitespace(c: char) -> bool {
    ||| (0x0009 <= c as u32 && c as u32 <= 0x000D)
    ||| c == ' '
    ||| c == '\u{0085}'
    ||| c == '\u{00A0}'
    ||| c == '\u{1680}'
    ||| (0x2000 <= c as u32 && c as u32 <= 0x200A)
    ||| c == '\u{2028}'
    ||| c == '\u{2029}'
    ||| c == '\u{202F}'
    ||| c == '\u{205F}'
    ||| c == '\u{3000}'
}

/// Exec twin of [`spec_is_whitespace`].
pub fn is_whitespace_char(c: char) -> (r: bool)
    ensures
        r == spec_is_whitespace(c),
{
    let u = c as u32;
    (0x0009 <= u && u <= 0x000D) || c == ' ' || c == '\u{0085}' || c == '\u{00A0}' || c
        == '\u{1680}' || (0x2000 <= u && u <= 0x200A) || c == '\u{2028}' || c == '\u{2029}' || c
        == '\u{202F}' || c == '\u{205F}' || c == '\u{3000}'
}

/// `s` with leading whitespace removed.
pub open spec fn trim_start(s: Seq<char>) -> Seq<char>
    decreases s.len(),
{
    if s.len() > 0 && spec_is_whitespace(s[0]) {
        trim_start(s.drop_first())
    } else {
        s
    }
}

/// `s` with trailing whitespace removed.
pub open spec fn trim_end(s: Seq<char>) -> Seq<char>
    decreases s.len(),
{
    if s.len() > 0 && spec_is_whitespace(s.last()) {
        trim_end(s.drop_last())
    } else {
        s
    }
}

/// `s` with whitespace removed from both ends.
pub open spec fn trim(s: Seq<char>) -> Seq<char> {
    trim_end(trim_start(s))
}

proof fn lemma_trim_start_skip(s: Seq<char>, k: int)
    requires
        0 <= k <= s.len(),
        forall|j: int| 0 <= j < k ==> spec_is_whitespace(s[j]),
        k == s.len() || !spec_is_whitespace(s[k]),
    ensures
        trim_start(s) == s.subrange(k, s.len() as int),
    decreases k,
{
    if k == 0 {
        assert(s.subrange(0, s.len() as int) =~= s);
    } else {
        let t = s.drop_first();
        lemma_trim_start_skip(t, k - 1);
        assert(t.subrange(k - 1, t.len() as int) =~= s.subrange(k, s.len() as int));
    }
}

proof fn lemma_trim_end_take(s: Seq<char>, k: int)
    requires
        0 <= k <= s.len(),
        forall|j: int| k <= j < s.len() ==> spec_is_whitespace(s[j]),
        k == 0 || !spec_is_whitespace(s[k - 1]),
    ensures
        trim_end(s) == s.subrange(0, k),
    decreases s.len(),
{
    if k == s.len() {
        assert(s.subrange(0, k) =~= s);
    } else {
        lemma_trim_end_take(s.drop_last(), k);
        assert(s.drop_last().subrange(0, k) =~= s.subrange(0, k));
    }
}

/// The copy of `s@[from..to]` with whitespace removed from both ends.
pub fn trim_range(s: &str, from: usize, to: usize) -> (r: String)
    requires
        from <= to <= s@.len(),
    ensures
        r@ == trim(s@.subrange(from as int, to as int)),
{
    let mut start: usize = from;
    while start < to && is_whitespace_char(s.get_char(start))
        invariant
            from <= start <= to <= s@.len(),
            forall|j: int| from <= j < start ==> spec_is_whitespace(s@[j]),
        decreases to - start,
    {
        start += 1;
    }
    let mut end: usize = to;
    while end > start && is_whitespace_char(s.get_char(end - 1))
        invariant
            start <= end <= to <= s@.len(),
            forall|j: int| end <= j < to ==> spec_is_whitespace(s@[j]),
        decreases end,
    {
        end -= 1;
    }
    proof {
        let seg = s@.subrange(from as int, to as int);
        lemma_trim_start_skip(seg, start - from);
        assert(seg.subrange(start - from, seg.len() as int) =~= s@.subrange(
            start as int,
            to as int,
        ));
        let t = s@.subrange(start as int, to as int);
        lemma_trim_end_take(t, end - start);
        assert(t.subrange(0, end - start) =~= s@.subrange(start as int, end as int));
    }
    s.substring_char(start, end).to_owned()
}

/// The segments of `s` between commas, `cur` being the part of the current
/// segment already read. Every comma ends a segment; no character is lost.
pub open spec fn split_commas_from(s: Seq<char>, cur: Seq<char>) -> Seq<Seq<char>>
    decreases s.len(),
{
    if s.len() == 0 {
        seq![cur]
    } else if s[0] == ',' {
        seq![cur] + split_commas_from(s.drop_first(), Seq::empty())
    } else {
        split_commas_from(s.drop_first(), cur.push(s[0]))
    }
}

/// The comma-separated segments of `s`; the empty string has one empty
/// segment.
pub open spec fn split_commas(s: Seq<char>) -> Seq<Seq<char>> {
    split_commas_from(s, Seq::empty())
}

/// Each segment trimmed.
pub open spec fn trim_all(segs: Seq<Seq<char>>) -> Seq<Seq<char>> {
    segs.map_values(|e: Seq<char>| trim(e))
}

/// Only the non-empty segments.
pub open spec fn keep_non_empty(segs: Seq<Seq<char>>) -> Seq<Seq<char>> {
    segs.filter(|e: Seq<char>| e.len() > 0)
}

/// What remains of the parse when `rest` is still unread and `cur` is the
/// part of the current segment already read.
pub open spec fn parsed_from(rest: Seq<char>, cur: Seq<char>) -> Seq<Seq<char>> {
    keep_non_empty(trim_all(split_commas_from(rest, cur)))
}

/// The entries a contact-point string stands for: the comma-separated
/// segments, trimmed, with empty segments dropped.
pub open spec fn parsed_contact_points(s: Seq<char>) -> Seq<Seq<char>> {
    keep_non_empty(trim_all(split_commas(s)))
}

/// What one finished segment contributes to the parse.
pub open spec fn seg_parsed(cur: Seq<char>) -> Seq<Seq<char>> {
    if trim(cur).len() > 0 {
        seq![trim(cur)]
    } else {
        Seq::empty()
    }
}

proof fn lemma_parsed_singleton(cur: Seq<char>)
    ensures
        keep_non_empty(trim_all(seq![cur])) == seg_parsed(cur),
{
    reveal_with_fuel(Seq::filter, 2);
    assert(trim_all(seq![cur]) =~= seq![trim(cur)]);
    assert(seq![trim(cur)].drop_last() =~= Seq::<Seq<char>>::empty());
    if trim(cur).len() > 0 {
        assert(keep_non_empty(seq![trim(cur)]) =~= seq![trim(cur)]);
    } else {
        assert(keep_non_empty(seq![trim(cur)]) =~= Seq::<Seq<char>>::empty());
    }
}

proof fn lemma_parsed_from_end(cur: Seq<char>)
    ensures
        parsed_from(Seq::empty(), cur) == seg_parsed(cur),
{
    lemma_parsed_singleton(cur);
}

proof fn lemma_parsed_from_comma(rest: Seq<char>, cur: Seq<char>)
    requires
        rest.len() > 0,
        rest[0] == ',',
    ensures
        parsed_from(rest, cur) == seg_parsed(cur) + parsed_from(rest.drop_first(), Seq::empty()),
    decreases rest.len(),
{
    broadcast use vstd::seq_lib::group_filter_ensures;

    let s1: Seq<Seq<char>> = seq![cur];
    let s2 = split_commas_from(rest.drop_first(), Seq::empty());
    assert(split_commas_from(rest, cur) == s1 + s2);
    assert(trim_all(s1 + s2) =~= trim_all(s1) + trim_all(s2));
    Seq::filter_distributes_over_add(trim_all(s1), trim_all(s2), |e: Seq<char>| e.len() > 0);
    lemma_parsed_singleton(cur);
}

/// The views of a sequence of strings.
pub open spec fn seq_views(v: Seq<String>) -> Seq<Seq<char>> {
    v.map_values(|x: String| x@)
}

/// Splits `s` at commas, trims every segment, and keeps the non-empty ones,
/// in order.
pub fn split_trimmed_non_empty(s: &str) -> (r: Vec<String>)
    ensures
        seq_views(r@) == parsed_contact_points(s@),
{
    let n = s.unicode_len();
    let mut out: Vec<String> = Vec::new();
    let mut seg_start: usize = 0;
    let mut i: usize = 0;
    proof {
        assert(seq_views(out@) =~= Seq::<Seq<char>>::empty());
        assert(s@.subrange(0, n as int) =~= s@);
        assert(s@.subrange(0, 0) =~= Seq::<char>::empty());
        assert(Seq::<Seq<char>>::empty() + parsed_contact_points(s@) =~= parsed_contact_points(
            s@,
        ));
    }
    while i < n
        invariant
            seg_start <= i <= n,
            n == s@.len(),
            seq_views(out@) + parsed_from(
                s@.subrange(i as int, n as int),
                s@.subrange(seg_start as int, i as int),
            ) == parsed_contact_points(s@),
        decreases n - i,
    {
        let ghost rest = s@.subrange(i as int, n as int);
        let ghost cur = s@.subrange(seg_start as int, i as int);
        if s.get_char(i) == ',' {
            let t = trim_range(s, seg_start, i);
            proof {
                lemma_parsed_from_comma(rest, cur);
                assert(rest.drop_first() =~= s@.subrange(i + 1, n as int));
                assert(s@.subrange(i + 1, i + 1) =~= Seq::<char>::empty());
            }
            if !t.as_str().is_empty() {
                let ghost pre = out@;
                out.push(t);
                proof {
                    assert(seq_views(out@) =~= seq_views(pre) + seq![trim(cur)]);
                    assert((seq_views(pre) + seq![trim(cur)]) + parsed_from(
                        s@.subrange(i + 1, n as int),
                        Seq::empty(),
                    ) =~= seq_views(pre) + (seq![trim(cur)] + parsed_from(
                        s@.subrange(i + 1, n as int),
                        Seq::empty(),
                    )));
                }
            } else {
                proof {
                    assert(seg_parsed(cur) =~= Seq::<Seq<char>>::empty());
                    assert(seg_parsed(cur) + parsed_from(s@.subrange(i + 1, n as int), Seq::empty())
                        =~= parsed_from(s@.subrange(i + 1, n as int), Seq::empty()));
                }
            }
            seg_start = i + 1;
        } else {
            proof {
                assert(rest.drop_first() =~= s@.subrange(i + 1, n as int));
                assert(cur.push(s@[i as int]) =~= s@.subrange(seg_start as int, i + 1));
                assert(split_commas_from(rest, cur) == split_commas_from(
                    s@.subrange(i + 1, n as int),
                    s@.subrange(seg_start as int, i + 1),
                ));
            }
        }
        i += 1;
    }
    let t = trim_range(s, seg_start, n);
    let ghost cur = s@.subrange(seg_start as int, n as int);
    proof {
        assert(s@.subrange(n as int, n as int) =~= Seq::<char>::empty());
        lemma_parsed_from_end(cur);
    }
    if !t.as_str().is_empty() {
        let ghost pre = out@;
        out.push(t);
        proof {
            assert(seq_views(out@) =~= seq_views(pre) + seq![trim(cur)]);
        }
    } else {
        proof {
            assert(seq_views(out@) + Seq::<Seq<char>>::empty() =~= seq_views(out@));
        }
    }
    out
}

} // verus!
