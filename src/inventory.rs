use vstd::prelude::*;
use vstd::string::*;
use crate::text::{from_chars, to_chars};

verus! {

/// An inventory snapshot of one item, as the service reports it.
pub struct HomeBoxItem {
    pub asset_id: String,
    pub id: String,
    pub name: String,
    pub quantity: i32,
}

/// The snapshot that an asset lookup stands for: the first record the
/// service returned; none when it returned no record.
pub fn first_item(items: Vec<HomeBoxItem>) -> (r: Option<HomeBoxItem>)
    ensures
        items@.len() == 0 <==> r is None,
        r matches Some(item) ==> item == items@[0],
{
    let mut items = items;
    if items.len() == 0 {
        None
    } else {
        Some(items.remove(0))
    }
}

/// `s` without any trailing `/` characters.
pub open spec fn trim_trailing_slashes(s: Seq<char>) -> Seq<char>
    decreases s.len(),
{
    if s.len() > 0 && s.last() == '/' {
        trim_trailing_slashes(s.drop_last())
    } else {
        s
    }
}

/// The path of the login endpoint, relative to the base URL.
pub open spec fn login_path() -> Seq<char> {
    "/api/v1/users/login"@
}

/// The path prefix of the asset lookup endpoint, relative to the base URL.
pub open spec fn assets_path() -> Seq<char> {
    "/api/v1/assets/"@
}

proof fn lemma_trim_prefix(s: Seq<char>, n: int)
    requires
        0 <= n <= s.len(),
        forall|j: int| n <= j < s.len() ==> s[j] == '/',
    ensures
        trim_trailing_slashes(s) == trim_trailing_slashes(s.subrange(0, n)),
    decreases s.len(),
{
    if s.len() > n {
        assert(s.drop_last().subrange(0, n) =~= s.subrange(0, n));
        lemma_trim_prefix(s.drop_last(), n);
    } else {
        assert(s.subrange(0, n) =~= s);
    }
}

/// The base URL with its trailing slashes removed, so that paths can be appended.
pub fn normalize_base_url(base_url: &str) -> (r: String)
    ensures
        r@ == trim_trailing_slashes(base_url@),
{
    let chars = to_chars(base_url);
    let mut end: usize = chars.len();
    while end > 0 && chars[end - 1] == '/'
        invariant
            chars@ == base_url@,
            end <= chars@.len(),
            forall|j: int| end <= j < chars@.len() ==> chars@[j] == '/',
        decreases end,
    {
        end = end - 1;
    }
    let mut kept: Vec<char> = Vec::new();
    let mut i: usize = 0;
    while i < end
        invariant
            end <= chars@.len(),
            i <= end,
            kept@ == chars@.subrange(0, i as int),
        decreases end - i,
    {
        kept.push(chars[i]);
        assert(kept@ =~= chars@.subrange(0, i + 1));
        i = i + 1;
    }
    proof {
        lemma_trim_prefix(chars@, end as int);
        let t = chars@.subrange(0, end as int);
        assert(t =~= kept@);
        if t.len() > 0 {
            assert(t.last() == chars@[end - 1]);
        }
    }
    from_chars(&kept)
}

fn append_chars(out: &mut Vec<char>, s: &str)
    ensures
        final(out)@ == old(out)@ + s@,
{
    let mut extra = to_chars(s);
    out.append(&mut extra);
}

/// The login endpoint under an already normalized base URL.
pub fn login_url(base_url: &str) -> (r: String)
    ensures
        r@ == base_url@ + login_path(),
{
    let mut out: Vec<char> = Vec::new();
    append_chars(&mut out, base_url);
    append_chars(&mut out, "/api/v1/users/login");
    assert(out@ =~= base_url@ + login_path());
    from_chars(&out)
}

/// The lookup endpoint of one asset under an already normalized base URL.
pub fn asset_url(base_url: &str, asset_id: &str) -> (r: String)
    ensures
        r@ == base_url@ + assets_path() + asset_id@,
{
    let mut out: Vec<char> = Vec::new();
    append_chars(&mut out, base_url);
    append_chars(&mut out, "/api/v1/assets/");
    append_chars(&mut out, asset_id);
    assert(out@ =~= base_url@ + assets_path() + asset_id@);
    from_chars(&out)
}

} // verus!
