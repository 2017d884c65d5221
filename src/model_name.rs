use vstd::prelude::*;
use vstd::string::*;
use crate::text::{trim_text, trimmed};

verus! {

/// What `str::to_lowercase` gives for a text.
pub uninterp spec fn lower_of(s: Seq<char>) -> Seq<char>;

/// What `char::to_uppercase` gives for a character (one or more characters).
pub uninterp spec fn upper_of(c: char) -> Seq<char>;

/// Relies on `str::to_lowercase`: the result depends on the characters alone.
#[verifier::external_body]
fn lowercase(s: &str) -> (r: String)
    ensures
        r@ == lower_of(s@),
{
    s.to_lowercase()
}

/// Relies on `char::to_uppercase`: the result depends on the character alone.
#[verifier::external_body]
fn uppercase_char(c: char) -> (r: String)
    ensures
        r@ == upper_of(c),
{
    c.to_uppercase().collect()
}

pub open spec fn is_separator(c: char) -> bool {
    c == '-' || c == '_'
}

/// The text after the last `/`, or all of it when there is none.
pub open spec fn last_segment(s: Seq<char>) -> Seq<char>
    decreases s.len(),
{
    if s.len() == 0 {
        Seq::empty()
    } else if s.last() == '/' {
        Seq::empty()
    } else {
        last_segment(s.drop_last()).push(s.last())
    }
}

/// Splitting from the left: the parts closed so far and the open one.
pub open spec fn split_acc(s: Seq<char>) -> (Seq<Seq<char>>, Seq<char>)
    decreases s.len(),
{
    if s.len() == 0 {
        (Seq::empty(), Seq::empty())
    } else {
        let (ps, cur) = split_acc(s.drop_last());
        if is_separator(s.last()) {
            (ps.push(cur), Seq::empty())
        } else {
            (ps, cur.push(s.last()))
        }
    }
}

/// The parts of `s` between separators (`-` or `_`), empty ones included.
pub open spec fn split_parts(s: Seq<char>) -> Seq<Seq<char>> {
    split_acc(s).0.push(split_acc(s).1)
}

pub open spec fn all_digits(s: Seq<char>) -> bool {
    forall|i: int| 0 <= i < s.len() ==> '0' <= #[trigger] s[i] <= '9'
}

/// A part is shown unless it is blank, a number, or the word "instruct".
pub open spec fn keeps(p: Seq<char>) -> bool {
    let t = trimmed(p);
    t.len() > 0 && !all_digits(lower_of(t)) && lower_of(t) != "instruct"@
}

/// The first character upper-cased, the rest as it is.
pub open spec fn capitalized(t: Seq<char>) -> Seq<char> {
    if t.len() == 0 {
        t
    } else {
        upper_of(t[0]) + t.drop_first()
    }
}

/// The words shown for the parts `ps`.
pub open spec fn shown_words(ps: Seq<Seq<char>>) -> Seq<Seq<char>>
    decreases ps.len(),
{
    if ps.len() == 0 {
        Seq::empty()
    } else {
        shown_words(ps.drop_last()) + (if keeps(ps.last()) {
            seq![capitalized(trimmed(ps.last()))]
        } else {
            Seq::empty()
        })
    }
}

/// The words joined with single spaces.
pub open spec fn joined(ws: Seq<Seq<char>>) -> Seq<char>
    decreases ws.len(),
{
    if ws.len() == 0 {
        Seq::empty()
    } else if ws.len() == 1 {
        ws[0]
    } else {
        joined(ws.drop_last()) + " "@ + ws.last()
    }
}

/// The display name of a model identifier.
pub open spec fn pretty_name(input: Seq<char>) -> Seq<char> {
    let words = shown_words(split_parts(last_segment(input)));
    if words.len() == 0 {
        capitalized(input)
    } else {
        joined(words)
    }
}

fn capitalize(t: &str) -> (r: String)
    ensures
        r@ == capitalized(t@),
{
    let n = t.unicode_len();
    if n == 0 {
        String::from_str(t)
    } else {
        let mut s = uppercase_char(t.get_char(0));
        s.append(t.substring_char(1, n));
        proof {
            assert(t@.subrange(1, n as int) == t@.drop_first());
        }
        s
    }
}

fn is_all_digits(s: &str) -> (r: bool)
    ensures
        r == all_digits(s@),
{
    let n = s.unicode_len();
    let mut i: usize = 0;
    while i < n
        invariant
            n == s@.len(),
            i <= n,
            all_digits(s@.take(i as int)),
        decreases n - i,
    {
        let c = s.get_char(i);
        if !('0' <= c && c <= '9') {
            assert(!all_digits(s@)) by {
                assert(s@[i as int] == c);
            };
            return false;
        }
        assert(all_digits(s@.take(i as int + 1))) by {
            assert forall|j: int| 0 <= j < i + 1 implies '0' <= #[trigger] s@.take(i as int + 1)[j] <= '9' by {
                if j < i {
                    assert(s@.take(i as int + 1)[j] == s@.take(i as int)[j]);
                }
            };
        };
        i = i + 1;
    }
    assert(s@.take(n as int) == s@);
    true
}

/// The word shown for a part, from the part trimmed (`t`), its lower-case
/// form (`lower`) and the upper-case form of its first character (`first_upper`).
pub open spec fn word_from(t: Seq<char>, lower: Seq<char>, first_upper: Seq<char>) -> Option<Seq<char>> {
    if t.len() == 0 || all_digits(lower) || lower == "instruct"@ {
        Option::None
    } else {
        Option::Some(first_upper + t.drop_first())
    }
}

/// Decides the word shown for a part once its case forms are known.
pub fn word_for_part(t: &str, lower: &str, first_upper: &str) -> (r: Option<String>)
    ensures
        match word_from(t@, lower@, first_upper@) {
            Option::Some(w) => r is Some && r->Some_0@ == w,
            Option::None => r is None,
        },
{
    let n = t.unicode_len();
    if n == 0 {
        return None;
    }
    if is_all_digits(lower) {
        return None;
    }
    let lower_text = String::from_str(lower);
    let instruct = String::from_str("instruct");
    if lower_text == instruct {
        return None;
    }
    let mut w = String::from_str(first_upper);
    w.append(t.substring_char(1, n));
    proof {
        assert(t@.subrange(1, n as int) == t@.drop_first());
    }
    Some(w)
}

/// The word shown for one part, if any.
fn shown_word(p: &str) -> (r: Option<String>)
    ensures
        r is Some <==> keeps(p@),
        r is Some ==> r->Some_0@ == capitalized(trimmed(p@)),
{
    let t = trim_text(p);
    if t.unicode_len() == 0 {
        return None;
    }
    let lower = lowercase(t.as_str());
    let first_upper = uppercase_char(t.as_str().get_char(0));
    word_for_part(t.as_str(), lower.as_str(), first_upper.as_str())
}

pub open spec fn views(v: Seq<String>) -> Seq<Seq<char>> {
    v.map_values(|s: String| s@)
}

/// The word list after one more part.
proof fn lemma_shown_words_push(ps: Seq<Seq<char>>, p: Seq<char>)
    ensures
        shown_words(ps.push(p)) == shown_words(ps) + (if keeps(p) {
            seq![capitalized(trimmed(p))]
        } else {
            Seq::<Seq<char>>::empty()
        }),
{
    assert(ps.push(p).drop_last() == ps);
}

proof fn lemma_views_push(v: Seq<String>, w: String)
    ensures
        views(v.push(w)) == views(v).push(w@),
{
    assert(views(v.push(w)) =~= views(v).push(w@));
}

/// Adds the word shown for part `p`, if any.
fn push_word(words: &mut Vec<String>, p: &str)
    ensures
        views(final(words)@) == views(old(words)@) + (if keeps(p@) {
            seq![capitalized(trimmed(p@))]
        } else {
            Seq::<Seq<char>>::empty()
        }),
{
    match shown_word(p) {
        Some(w) => {
            let ghost w0 = words@;
            let ghost wv = w@;
            words.push(w);
            proof {
                lemma_views_push(w0, words@.last());
                assert(views(words@) =~= views(w0) + seq![wv]);
            }
        },
        None => {
            assert(views(words@) =~= views(words@) + Seq::<Seq<char>>::empty());
        },
    }
}

/// Turns a model identifier into a display name: the last path segment, split
/// on `-` and `_`, without blank, numeric and "instruct" parts, each word
/// capitalized and the words joined by spaces. When no word is left, the
/// whole input capitalized.
pub fn pretty_model_name(input: &str) -> (r: String)
    ensures
        r@ == pretty_name(input@),
{
    let n = input.unicode_len();
    let mut start: usize = 0;
    let mut i: usize = 0;
    while i < n
        invariant
            n == input@.len(),
            start <= i <= n,
            last_segment(input@.take(i as int)) == input@.subrange(start as int, i as int),
        decreases n - i,
    {
        let c = input.get_char(i);
        proof {
            assert(input@.take(i as int + 1).drop_last() == input@.take(i as int));
            assert(input@.take(i as int + 1).last() == c);
        }
        if c == '/' {
            start = i + 1;
            assert(input@.subrange(start as int, i as int + 1) =~= Seq::<char>::empty());
        } else {
            assert(input@.subrange(start as int, i as int + 1) =~= input@.subrange(start as int, i as int).push(c));
        }
        i = i + 1;
    }
    assert(input@.take(n as int) == input@);
    let seg = input.substring_char(start, n);
    let m = seg.unicode_len();
    let mut words: Vec<String> = Vec::new();
    let mut part_start: usize = 0;
    let mut j: usize = 0;
    assert(views(words@) =~= Seq::<Seq<char>>::empty());
    while j < m
        invariant
            m == seg@.len(),
            part_start <= j <= m,
            split_acc(seg@.take(j as int)).1 == seg@.subrange(part_start as int, j as int),
            views(words@) == shown_words(split_acc(seg@.take(j as int)).0),
        decreases m - j,
    {
        let c = seg.get_char(j);
        let ghost ps = split_acc(seg@.take(j as int)).0;
        proof {
            assert(seg@.take(j as int + 1).drop_last() == seg@.take(j as int));
            assert(seg@.take(j as int + 1).last() == c);
        }
        if c == '-' || c == '_' {
            let p = seg.substring_char(part_start, j);
            push_word(&mut words, p);
            proof {
                lemma_shown_words_push(ps, p@);
            }
            part_start = j + 1;
            assert(seg@.subrange(part_start as int, j as int + 1) =~= Seq::<char>::empty());
        } else {
            assert(seg@.subrange(part_start as int, j as int + 1) =~= seg@.subrange(part_start as int, j as int).push(c));
        }
        j = j + 1;
    }
    assert(seg@.take(m as int) == seg@);
    let p = seg.substring_char(part_start, m);
    let ghost ps = split_acc(seg@).0;
    push_word(&mut words, p);
    proof {
        lemma_shown_words_push(ps, p@);
    }
    if words.len() == 0 {
        return capitalize(input);
    }
    let mut out = words[0].clone();
    let mut k: usize = 1;
    assert(views(words@).take(1) =~= seq![words@[0]@]);
    while k < words.len()
        invariant
            1 <= k <= words@.len(),
            out@ == joined(views(words@).take(k as int)),
        decreases words@.len() - k,
    {
        out.append(" ");
        out.append(words[k].as_str());
        proof {
            let ws = views(words@);
            assert(ws.take(k as int + 1).drop_last() == ws.take(k as int));
            assert(ws.take(k as int + 1).last() == words@[k as int]@);
        }
        k = k + 1;
    }
    assert(views(words@).take(words@.len() as int) == views(words@));
    out
}

} // verus!
