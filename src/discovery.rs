//! Finds the source files under the player's installation directory.
use vstd::prelude::*;
use crate::paths::{components, join_onto, push_component, views, split_components, push_onto};

verus! {

/// Whether `s` ends with `suffix`.
pub open spec fn ends_with(s: Seq<char>, suffix: Seq<char>) -> bool {
    s.len() >= suffix.len() && s.subrange(s.len() - suffix.len(), s.len() as int) == suffix
}

/// The file-name suffix of a pattern `dir/.../*suffix`.
pub open spec fn pattern_suffix(pattern: Seq<char>) -> Option<Seq<char>> {
    let c = components(pattern, false);
    if c.len() == 0 || c.last().len() == 0 || c.last()[0] != '*' {
        None
    } else {
        Some(c.last().drop_first())
    }
}

/// The directory a pattern `dir/.../*suffix` points into, below `base_dir`.
pub open spec fn pattern_dir(base_dir: Seq<char>, pattern: Seq<char>) -> Option<Seq<char>> {
    let c = components(pattern, false);
    match pattern_suffix(pattern) {
        None => None,
        Some(_) => Some(join_onto(base_dir, c.drop_last())),
    }
}

/// The first name in `names` that ends with `suffix`.
pub open spec fn first_with_suffix(names: Seq<Seq<char>>, suffix: Seq<char>) -> Option<Seq<char>>
    decreases names.len(),
{
    if names.len() == 0 {
        None
    } else if ends_with(names[0], suffix) {
        Some(names[0])
    } else {
        first_with_suffix(names.drop_first(), suffix)
    }
}

/// Whether `s` ends with `suffix`.
fn has_suffix(s: &str, suffix: &str) -> (r: bool)
    ensures
        r == ends_with(s@, suffix@),
{
    let n = s.unicode_len();
    let m = suffix.unicode_len();
    if m > n {
        return false;
    }
    let mut k: usize = 0;
    while k < m
        invariant
            n == s@.len(),
            m == suffix@.len(),
            m <= n,
            k <= m,
            forall|j: int| 0 <= j < k ==> s@[n - m + j] == suffix@[j],
        decreases m - k,
    {
        if s.get_char(n - m + k) != suffix.get_char(k) {
            assert(s@.subrange(n - m, n as int)[k as int] != suffix@[k as int]);
            return false;
        }
        k += 1;
    }
    assert(s@.subrange(n - m, n as int) =~= suffix@);
    true
}

/// The suffix and the directory components of a pattern `dir/.../*suffix`.
fn split_pattern(pattern: &str) -> (r: Option<(String, Vec<String>)>)
    ensures
        match r {
            None => pattern_suffix(pattern@) is None,
            Some((suffix, dirs)) => pattern_suffix(pattern@) == Some(suffix@)
                && views(dirs@) == components(pattern@, false).drop_last(),
        },
{
    let mut comps = split_components(pattern, false);
    let ghost all = views(comps@);
    let last = match comps.pop() {
        None => return None,
        Some(last) => last,
    };
    assert(all.last() == last@);
    assert(views(comps@) =~= all.drop_last());
    let t = last.as_str();
    let len = t.unicode_len();
    if len == 0 || t.get_char(0) != '*' {
        return None;
    }
    let suffix = String::from_str(t.substring_char(1, len));
    assert(suffix@ =~= last@.drop_first());
    Some((suffix, comps))
}

/// The directory to list for a pattern, or `None` for a pattern that does not
/// end in a component `*suffix`.
pub fn pattern_directory(base_dir: &str, pattern: &str) -> (r: Option<String>)
    ensures
        match r {
            Some(d) => pattern_dir(base_dir@, pattern@) == Some(d@),
            None => pattern_dir(base_dir@, pattern@) is None,
        },
{
    match split_pattern(pattern) {
        None => None,
        Some((_, dirs)) => Some(join_all(base_dir, &dirs)),
    }
}

/// `base` with every component of `comps` appended.
fn join_all(base: &str, comps: &Vec<String>) -> (r: String)
    ensures
        r@ == join_onto(base@, views(comps@)),
{
    let mut cur = String::from_str(base);
    let mut k: usize = 0;
    assert(views(comps@).take(0) =~= Seq::<Seq<char>>::empty());
    while k < comps.len()
        invariant
            k <= comps@.len(),
            cur@ == join_onto(base@, views(comps@).take(k as int)),
        decreases comps@.len() - k,
    {
        assert(views(comps@).take(k + 1).drop_last() =~= views(comps@).take(k as int));
        push_onto(&mut cur, comps[k].as_str());
        k += 1;
    }
    assert(views(comps@).take(k as int) =~= views(comps@));
    cur
}

/// The path of the first file named in `listing` that matches the pattern
/// `dir/.../*suffix` below `base_dir`; `listing` holds the names of the
/// files in the directory that `pattern_directory` gives, in the order the
/// directory is read. An empty string when none matches, or when the pattern
/// has no `*suffix` component.
pub fn pathbuf_from_pattern(base_dir: &str, pattern: &str, listing: &Vec<String>) -> (r: String)
    ensures
        match (pattern_dir(base_dir@, pattern@), pattern_suffix(pattern@)) {
            (Some(d), Some(suffix)) => match first_with_suffix(views(listing@), suffix) {
                Some(name) => r@ == push_component(d, name),
                None => r@.len() == 0,
            },
            _ => r@.len() == 0,
        },
{
    let (suffix, dirs) = match split_pattern(pattern) {
        None => return String::new(),
        Some(parts) => parts,
    };
    let ghost names = views(listing@);
    let n = listing.len();
    let mut i: usize = 0;
    assert(names.subrange(0, n as int) =~= names);
    while i < n
        invariant
            i <= n,
            n == listing@.len(),
            names == views(listing@),
            views(dirs@) == components(pattern@, false).drop_last(),
            pattern_suffix(pattern@) == Some(suffix@),
            first_with_suffix(names, suffix@) == first_with_suffix(names.subrange(i as int, n as int), suffix@),
        decreases n - i,
    {
        assert(names.subrange(i as int, n as int).drop_first() =~= names.subrange(i + 1, n as int));
        assert(listing@[i as int]@ == names[i as int]);
        assert(names.subrange(i as int, n as int)[0] == names[i as int]);
        if has_suffix(listing[i].as_str(), suffix.as_str()) {
            let mut path = join_all(base_dir, &dirs);
            push_onto(&mut path, listing[i].as_str());
            return path;
        }
        i += 1;
    }
    String::new()
}

} // verus!
