use vstd::prelude::*;
use vstd::string::*;
use crate::model_name::views;
use crate::text::{trim_text, trimmed};

verus! {

/// Splitting on commas from the left: the parts closed so far and the open one.
pub open spec fn comma_split_acc(s: Seq<char>) -> (Seq<Seq<char>>, Seq<char>)
    decreases s.len(),
{
    if s.len() == 0 {
        (Seq::empty(), Seq::empty())
    } else {
        let (ps, cur) = comma_split_acc(s.drop_last());
        if s.last() == ',' {
            (ps.push(cur), Seq::empty())
        } else {
            (ps, cur.push(s.last()))
        }
    }
}

/// The comma-separated parts of `s`, empty ones included.
pub open spec fn comma_parts(s: Seq<char>) -> Seq<Seq<char>> {
    comma_split_acc(s).0.push(comma_split_acc(s).1)
}

/// The trimmed parts that are not blank, in order.
pub open spec fn keys_of_parts(ps: Seq<Seq<char>>) -> Seq<Seq<char>>
    decreases ps.len(),
{
    if ps.len() == 0 {
        Seq::empty()
    } else {
        keys_of_parts(ps.drop_last()) + (if trimmed(ps.last()).len() > 0 {
            seq![trimmed(ps.last())]
        } else {
            Seq::empty()
        })
    }
}

/// The key pool configured by a comma-separated list.
pub open spec fn key_pool(raw: Seq<char>) -> Seq<Seq<char>> {
    keys_of_parts(comma_parts(raw))
}

fn push_key(keys: &mut Vec<String>, p: &str)
    ensures
        views(final(keys)@) == views(old(keys)@) + (if trimmed(p@).len() > 0 {
            seq![trimmed(p@)]
        } else {
            Seq::<Seq<char>>::empty()
        }),
{
    let t = trim_text(p);
    if t.unicode_len() > 0 {
        let ghost k0 = keys@;
        let ghost tv = t@;
        keys.push(t);
        assert(views(keys@) =~= views(k0) + seq![tv]);
    } else {
        assert(views(keys@) =~= views(keys@) + Seq::<Seq<char>>::empty());
    }
}

/// Reads the ordered key pool from a comma-separated list: each entry trimmed,
/// blank entries left out, the order kept.
pub fn parse_api_keys(raw: &str) -> (r: Vec<String>)
    ensures
        views(r@) == key_pool(raw@),
{
    let n = raw.unicode_len();
    let mut keys: Vec<String> = Vec::new();
    let mut part_start: usize = 0;
    let mut j: usize = 0;
    assert(views(keys@) =~= Seq::<Seq<char>>::empty());
    while j < n
        invariant
            n == raw@.len(),
            part_start <= j <= n,
            comma_split_acc(raw@.take(j as int)).1 == raw@.subrange(part_start as int, j as int),
            views(keys@) == keys_of_parts(comma_split_acc(raw@.take(j as int)).0),
        decreases n - j,
    {
        let c = raw.get_char(j);
        let ghost ps = comma_split_acc(raw@.take(j as int)).0;
        proof {
            assert(raw@.take(j as int + 1).drop_last() == raw@.take(j as int));
            assert(raw@.take(j as int + 1).last() == c);
        }
        if c == ',' {
            let p = raw.substring_char(part_start, j);
            push_key(&mut keys, p);
            proof {
                assert(ps.push(p@).drop_last() == ps);
            }
            part_start = j + 1;
            assert(raw@.subrange(part_start as int, j as int + 1) =~= Seq::<char>::empty());
        } else {
            assert(raw@.subrange(part_start as int, j as int + 1) =~= raw@.subrange(part_start as int, j as int).push(c));
        }
        j = j + 1;
    }
    assert(raw@.take(n as int) == raw@);
    let p = raw.substring_char(part_start, n);
    let ghost ps = comma_split_acc(raw@).0;
    push_key(&mut keys, p);
    proof {
        assert(ps.push(p@).drop_last() == ps);
    }
    keys
}

} // verus!
