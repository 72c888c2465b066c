use vstd::prelude::*;
use crate::config::MatrixMessageConfig;
use crate::inventory::HomeBoxItem;
use crate::text::{decimal, decimal_chars, from_chars, to_chars};

verus! {

/// Whether `s` begins with `p`.
pub open spec fn starts_with(s: Seq<char>, p: Seq<char>) -> bool {
    p.len() <= s.len() && s.subrange(0, p.len() as int) == p
}

/// The first key, from index `k` on, that is non-empty and begins `s`.
pub open spec fn first_key(s: Seq<char>, keys: Seq<Seq<char>>, k: nat) -> Option<nat>
    decreases keys.len() - k,
{
    if k >= keys.len() {
        None
    } else if keys[k as int].len() > 0 && starts_with(s, keys[k as int]) {
        Some(k)
    } else {
        first_key(s, keys, k + 1)
    }
}

/// Left-to-right substitution: wherever a key begins, its value is written
/// and the key skipped; every other character is copied.
pub open spec fn substitute(t: Seq<char>, keys: Seq<Seq<char>>, vals: Seq<Seq<char>>) -> Seq<char>
    decreases t.len(),
{
    if t.len() == 0 {
        Seq::empty()
    } else {
        match first_key(t, keys, 0) {
            Some(k) => if k < keys.len() && 0 < keys[k as int].len() <= t.len() {
                vals[k as int] + substitute(t.skip(keys[k as int].len() as int), keys, vals)
            } else {
                seq![t[0]] + substitute(t.skip(1), keys, vals)
            },
            None => seq![t[0]] + substitute(t.skip(1), keys, vals),
        }
    }
}

/// The recognized placeholders.
pub open spec fn placeholders() -> Seq<Seq<char>> {
    seq!["{name}"@, "{quantity}"@, "{threshold}"@, "{asset_id}"@, "{id}"@]
}

/// What each placeholder stands for, for an item and its threshold.
pub open spec fn placeholder_values(item: HomeBoxItem, threshold: i32) -> Seq<Seq<char>> {
    seq![item.name@, decimal(item.quantity as int), decimal(threshold as int), item.asset_id@, item.id@]
}

/// A template body with every recognized placeholder filled in.
pub open spec fn render_body(t: Seq<char>, item: HomeBoxItem, threshold: i32) -> Seq<char> {
    substitute(t, placeholders(), placeholder_values(item, threshold))
}

/// Whether no key occurs anywhere in `t`.
pub open spec fn free_of_keys(t: Seq<char>, keys: Seq<Seq<char>>) -> bool {
    forall|i: int| 0 <= i < t.len() ==> first_key(#[trigger] t.skip(i), keys, 0) is None
}

fn starts_at(t: &Vec<char>, i: usize, p: &Vec<char>) -> (r: bool)
    requires
        i <= t@.len(),
    ensures
        r == starts_with(t@.skip(i as int), p@),
{
    let tl = t.len();
    if p.len() > tl - i {
        return false;
    }
    let mut j: usize = 0;
    while j < p.len()
        invariant
            tl == t@.len(),
            i + p@.len() <= t@.len(),
            j <= p@.len(),
            forall|m: int| 0 <= m < j ==> t@[i + m] == p@[m],
        decreases p@.len() - j,
    {
        if t[i + j] != p[j] {
            assert(t@.skip(i as int).subrange(0, p@.len() as int)[j as int] != p@[j as int]);
            return false;
        }
        j = j + 1;
    }
    assert(t@.skip(i as int).subrange(0, p@.len() as int) =~= p@);
    true
}

fn find_key(t: &Vec<char>, i: usize, keys: &Vec<Vec<char>>) -> (r: Option<usize>)
    requires
        i <= t@.len(),
    ensures
        r matches Some(k) ==> k < keys@.len() && keys@[k as int]@.len() > 0 && starts_with(
            t@.skip(i as int),
            keys@[k as int]@,
        ),
        r matches Some(k) ==> first_key(t@.skip(i as int), keys@.map_values(|v: Vec<char>| v@), 0)
            == Some(k as nat),
        r is None ==> first_key(t@.skip(i as int), keys@.map_values(|v: Vec<char>| v@), 0) is None,
{
    let ghost ks = keys@.map_values(|v: Vec<char>| v@);
    let ghost s = t@.skip(i as int);
    let mut k: usize = 0;
    while k < keys.len()
        invariant
            i <= t@.len(),
            ks == keys@.map_values(|v: Vec<char>| v@),
            s == t@.skip(i as int),
            k <= keys@.len(),
            first_key(s, ks, 0) == first_key(s, ks, k as nat),
        decreases keys@.len() - k,
    {
        if keys[k].len() > 0 && starts_at(t, i, &keys[k]) {
            assert(ks[k as int] == keys@[k as int]@);
            return Some(k);
        }
        assert(ks[k as int] == keys@[k as int]@);
        k = k + 1;
    }
    None
}

/// Substitutes `vals[k]` for each occurrence of `keys[k]` in `t`, scanning left to right.
pub fn substitute_chars(t: &Vec<char>, keys: &Vec<Vec<char>>, vals: &Vec<Vec<char>>) -> (r: Vec<char>)
    requires
        keys@.len() == vals@.len(),
    ensures
        r@ == substitute(
            t@,
            keys@.map_values(|v: Vec<char>| v@),
            vals@.map_values(|v: Vec<char>| v@),
        ),
{
    let ghost ks = keys@.map_values(|v: Vec<char>| v@);
    let ghost vs = vals@.map_values(|v: Vec<char>| v@);
    let mut out: Vec<char> = Vec::new();
    let mut i: usize = 0;
    assert(t@.skip(0) =~= t@);
    while i < t.len()
        invariant
            keys@.len() == vals@.len(),
            ks == keys@.map_values(|v: Vec<char>| v@),
            vs == vals@.map_values(|v: Vec<char>| v@),
            i <= t@.len(),
            substitute(t@, ks, vs) == out@ + substitute(t@.skip(i as int), ks, vs),
        decreases t@.len() - i,
    {
        let ghost s = t@.skip(i as int);
        match find_key(t, i, keys) {
            Some(k) => {
                let ghost before = out@;
                let mut v = vals[k].clone();
                proof {
                    assert(ks[k as int] == keys@[k as int]@);
                    assert(vs[k as int] == vals@[k as int]@);
                }
                out.append(&mut v);
                let n = keys[k].len();
                assert(s.skip(n as int) =~= t@.skip(i + n));
                assert(out@ =~= before + vs[k as int]);
                i = i + n;
            },
            None => {
                out.push(t[i]);
                assert(s.skip(1) =~= t@.skip(i + 1));
                i = i + 1;
            },
        }
    }
    assert(t@.skip(i as int) =~= Seq::<char>::empty());
    out
}

fn placeholder_table(item: &HomeBoxItem, threshold: i32) -> (r: (Vec<Vec<char>>, Vec<Vec<char>>))
    ensures
        r.0@.len() == r.1@.len(),
        r.0@.map_values(|v: Vec<char>| v@) == placeholders(),
        r.1@.map_values(|v: Vec<char>| v@) == placeholder_values(*item, threshold),
{
    let mut keys: Vec<Vec<char>> = Vec::new();
    keys.push(to_chars("{name}"));
    keys.push(to_chars("{quantity}"));
    keys.push(to_chars("{threshold}"));
    keys.push(to_chars("{asset_id}"));
    keys.push(to_chars("{id}"));
    let mut vals: Vec<Vec<char>> = Vec::new();
    vals.push(to_chars(item.name.as_str()));
    vals.push(decimal_chars(item.quantity));
    vals.push(decimal_chars(threshold));
    vals.push(to_chars(item.asset_id.as_str()));
    vals.push(to_chars(item.id.as_str()));
    assert(keys@.map_values(|v: Vec<char>| v@) =~= placeholders());
    assert(vals@.map_values(|v: Vec<char>| v@) =~= placeholder_values(*item, threshold));
    (keys, vals)
}

/// Renders the plain and HTML bodies of `template` for `item` at `threshold`:
/// `{name}`, `{quantity}`, `{threshold}`, `{asset_id}` and `{id}` are replaced
/// by the item's values; any other text, including unknown placeholders, is kept.
pub fn render(template: &MatrixMessageConfig, item: &HomeBoxItem, threshold: i32) -> (r: (
    String,
    String,
))
    ensures
        r.0@ == render_body(template.plain@, *item, threshold),
        r.1@ == render_body(template.html@, *item, threshold),
{
    let (keys, vals) = placeholder_table(item, threshold);
    let plain = substitute_chars(&to_chars(template.plain.as_str()), &keys, &vals);
    let html = substitute_chars(&to_chars(template.html.as_str()), &keys, &vals);
    (from_chars(&plain), from_chars(&html))
}

/// Substitution leaves a text in which no key occurs unchanged.
pub proof fn lemma_substitute_free(t: Seq<char>, keys: Seq<Seq<char>>, vals: Seq<Seq<char>>)
    requires
        free_of_keys(t, keys),
    ensures
        substitute(t, keys, vals) == t,
    decreases t.len(),
{
    if t.len() > 0 {
        assert(t.skip(0) =~= t);
        assert forall|i: int| 0 <= i < t.skip(1).len() implies first_key(
            #[trigger] t.skip(1).skip(i),
            keys,
            0,
        ) is None by {
            assert(t.skip(1).skip(i) =~= t.skip(i + 1));
        }
        lemma_substitute_free(t.skip(1), keys, vals);
        assert(seq![t[0]] + t.skip(1) =~= t);
    }
}

/// Rendering a template body that holds no recognized placeholder returns it unchanged.
pub proof fn lemma_render_without_placeholders(t: Seq<char>, item: HomeBoxItem, threshold: i32)
    requires
        free_of_keys(t, placeholders()),
    ensures
        render_body(t, item, threshold) == t,
{
    lemma_substitute_free(t, placeholders(), placeholder_values(item, threshold));
}

} // verus!
