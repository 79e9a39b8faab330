//! Maps a path recorded in the catalog onto the local music library.
use vstd::prelude::*;

verus! {

/// A path separator; a backslash separates too where the path may come from Windows.
pub open spec fn is_separator(c: char, backslash: bool) -> bool {
    c == '/' || (backslash && c == '\\')
}

/// The text between separators, empty pieces included; never empty itself.
pub open spec fn pieces(s: Seq<char>, backslash: bool) -> Seq<Seq<char>>
    decreases s.len(),
{
    if s.len() == 0 {
        seq![Seq::empty()]
    } else {
        let before = pieces(s.drop_last(), backslash);
        if is_separator(s.last(), backslash) {
            before.push(Seq::empty())
        } else {
            before.update(before.len() - 1, before.last().push(s.last()))
        }
    }
}

/// A piece that names a directory or a file: not empty, and not `.`.
pub open spec fn is_named(p: Seq<char>) -> bool {
    p.len() > 0 && p != seq!['.']
}

/// The pieces that name something, in order.
pub open spec fn named(ps: Seq<Seq<char>>) -> Seq<Seq<char>>
    decreases ps.len(),
{
    if ps.len() == 0 {
        Seq::empty()
    } else if is_named(ps.last()) {
        named(ps.drop_last()).push(ps.last())
    } else {
        named(ps.drop_last())
    }
}

/// The named components of a path, root first.
pub open spec fn components(s: Seq<char>, backslash: bool) -> Seq<Seq<char>> {
    named(pieces(s, backslash))
}

/// The directory name of the library root: its last component, unless that is `..`.
pub open spec fn library_name(root: Seq<char>) -> Option<Seq<char>> {
    let c = components(root, false);
    if c.len() == 0 || c.last() == seq!['.', '.'] {
        None
    } else {
        Some(c.last())
    }
}

/// A component appended to a path, with a separator between unless the path
/// is empty or already ends in one.
pub open spec fn push_component(base: Seq<char>, c: Seq<char>) -> Seq<char> {
    if base.len() == 0 || base.last() == '/' {
        base + c
    } else {
        base + seq!['/'] + c
    }
}

/// `base` with each of `tail` appended in order.
pub open spec fn join_onto(base: Seq<char>, tail: Seq<Seq<char>>) -> Seq<char>
    decreases tail.len(),
{
    if tail.len() == 0 {
        base
    } else {
        push_component(join_onto(base, tail.drop_last()), tail.last())
    }
}

/// The candidate for a match at component `j`: the components after `j` appended to the root.
pub open spec fn candidate_at(comps: Seq<Seq<char>>, root: Seq<char>, j: int) -> Seq<char> {
    join_onto(root, comps.subrange(j + 1, comps.len() as int))
}

/// Candidates for the components at `j`, `j - 1`, ..., 0 that equal `name`, nearest first.
pub open spec fn scan_from(comps: Seq<Seq<char>>, name: Seq<char>, root: Seq<char>, j: int) -> Seq<Seq<char>>
    decreases j + 1,
{
    if j < 0 {
        Seq::empty()
    } else {
        let rest = scan_from(comps, name, root, j - 1);
        if comps[j] == name {
            seq![candidate_at(comps, root, j)] + rest
        } else {
            rest
        }
    }
}

/// The local paths to try for a stored path, in order. The file's own
/// directory is never matched; the search starts at its parent and goes
/// towards the root.
pub open spec fn candidate_paths(stored: Seq<char>, root: Seq<char>) -> Seq<Seq<char>> {
    let comps = components(stored, true);
    match library_name(root) {
        None => Seq::empty(),
        Some(name) => scan_from(comps, name, root, comps.len() - 3),
    }
}

pub open spec fn views(v: Seq<String>) -> Seq<Seq<char>> {
    v.map_values(|s: String| s@)
}

/// Whether `s[start..end]` names a component.
fn names_component(s: &str, start: usize, end: usize) -> (r: bool)
    requires
        start <= end <= s@.len(),
    ensures
        r == is_named(s@.subrange(start as int, end as int)),
{
    if start == end {
        return false;
    }
    if end - start == 1 && s.get_char(start) == '.' {
        assert(s@.subrange(start as int, end as int) =~= seq!['.']);
        return false;
    }
    if end - start == 1 {
        assert(s@.subrange(start as int, end as int)[0] != '.');
    }
    true
}

/// Splits a path into its named components.
pub fn split_components(s: &str, backslash: bool) -> (r: Vec<String>)
    ensures
        views(r@) == components(s@, backslash),
{
    let len = s.unicode_len();
    let mut done: Vec<String> = Vec::new();
    let mut start: usize = 0;
    let mut i: usize = 0;
    while i < len
        invariant
            len == s@.len(),
            start <= i <= len,
            pieces(s@.take(i as int), backslash).len() >= 1,
            views(done@) == named(pieces(s@.take(i as int), backslash).drop_last()),
            pieces(s@.take(i as int), backslash).last() == s@.subrange(start as int, i as int),
        decreases len - i,
    {
        let c = s.get_char(i);
        let ghost before = pieces(s@.take(i as int), backslash);
        assert(s@.take(i + 1).drop_last() =~= s@.take(i as int));
        assert(s@.take(i + 1).last() == c);
        if c == '/' || (backslash && c == '\\') {
            let ghost old_done = views(done@);
            if names_component(s, start, i) {
                let piece = String::from_str(s.substring_char(start, i));
                done.push(piece);
                assert(views(done@) =~= old_done.push(s@.subrange(start as int, i as int)));
            }
            assert(pieces(s@.take(i + 1), backslash).drop_last() =~= before);
            start = i + 1;
            assert(s@.subrange(start as int, i + 1) =~= Seq::<char>::empty());
        } else {
            let ghost after = before.update(before.len() - 1, before.last().push(c));
            assert(after.drop_last() =~= before.drop_last());
            assert(pieces(s@.take(i + 1), backslash) == after);
            assert(s@.subrange(start as int, i + 1) =~= s@.subrange(start as int, i as int).push(c));
        }
        i += 1;
    }
    assert(s@.take(len as int) =~= s@);
    if names_component(s, start, len) {
        let ghost old_done = views(done@);
        let piece = String::from_str(s.substring_char(start, len));
        done.push(piece);
        assert(views(done@) =~= old_done.push(s@.subrange(start as int, len as int)));
    }
    done
}

/// The library root's directory name.
pub fn library_dir_name(root: &str) -> (r: Option<String>)
    ensures
        match r {
            Some(n) => library_name(root@) == Some(n@),
            None => library_name(root@) is None,
        },
{
    let comps = split_components(root, false);
    let n = comps.len();
    if n == 0 {
        return None;
    }
    proof {
        reveal_strlit("..");
    }
    let up = String::from_str("..");
    assert(comps@[n - 1]@ == views(comps@)[n - 1]);
    if comps[n - 1] == up {
        assert(up@ =~= seq!['.', '.']);
        return None;
    }
    assert(comps@[n - 1]@ != seq!['.', '.']) by {
        assert(up@ =~= seq!['.', '.']);
    }
    Some(comps[n - 1].clone())
}

/// Appends one component, as `push_component` says.
pub(crate) fn push_onto(cur: &mut String, c: &str)
    ensures
        final(cur)@ == push_component(old(cur)@, c@),
{
    let t = cur.as_str();
    let len = t.unicode_len();
    if len == 0 || t.get_char(len - 1) == '/' {
        cur.append(c);
    } else {
        proof {
            reveal_strlit("/");
        }
        let ghost before = cur@;
        cur.append("/");
        cur.append(c);
        assert(cur@ =~= before + seq!['/'] + c@);
    }
}

/// `root` with the components `comps[from..]` appended.
fn join_tail(root: &str, comps: &Vec<String>, from: usize) -> (r: String)
    requires
        from <= comps@.len(),
    ensures
        r@ == join_onto(root@, views(comps@).subrange(from as int, comps@.len() as int)),
{
    let mut cur = String::from_str(root);
    let mut k = from;
    assert(views(comps@).subrange(from as int, k as int) =~= Seq::<Seq<char>>::empty());
    while k < comps.len()
        invariant
            from <= k <= comps@.len(),
            cur@ == join_onto(root@, views(comps@).subrange(from as int, k as int)),
        decreases comps@.len() - k,
    {
        let ghost vc = views(comps@);
        assert(vc.subrange(from as int, k + 1).drop_last() =~= vc.subrange(from as int, k as int));
        assert(vc.subrange(from as int, k + 1).last() == comps@[k as int]@);
        push_onto(&mut cur, comps[k].as_str());
        k += 1;
    }
    cur
}

/// The local paths to try for `stored`, nearest match first.
pub fn reconcile_candidates(stored: &str, root: &str) -> (r: Vec<String>)
    ensures
        views(r@) == candidate_paths(stored@, root@),
{
    let comps = split_components(stored, true);
    let ghost vc = views(comps@);
    let name = match library_dir_name(root) {
        None => return Vec::new(),
        Some(name) => name,
    };
    let n = comps.len();
    let mut out: Vec<String> = Vec::new();
    if n < 3 {
        return out;
    }
    let mut k: usize = n - 2;
    while k > 0
        invariant
            k <= n - 2,
            n == comps@.len(),
            vc == views(comps@),
            views(out@) + scan_from(vc, name@, root@, k - 1) == scan_from(vc, name@, root@, n - 3),
        decreases k,
    {
        let j = k - 1;
        let ghost old_out = views(out@);
        assert(comps@[j as int]@ == vc[j as int]);
        if comps[j] == name {
            let cand = join_tail(root, &comps, j + 1);
            out.push(cand);
            assert(views(out@) =~= old_out.push(cand@));
            assert(old_out + scan_from(vc, name@, root@, j as int) =~= old_out.push(cand@) + scan_from(vc, name@, root@, j - 1));
        }
        k -= 1;
    }
    assert(views(out@) + Seq::<Seq<char>>::empty() =~= views(out@));
    out
}

/// The first candidate that exists.
pub open spec fn first_existing(cands: Seq<Seq<char>>, exists: Seq<bool>) -> Option<Seq<char>>
    decreases cands.len(),
{
    if cands.len() == 0 || exists.len() == 0 {
        None
    } else if exists[0] {
        Some(cands[0])
    } else {
        first_existing(cands.drop_first(), exists.drop_first())
    }
}

/// Picks the first of the candidates whose file exists; `exists[i]` tells
/// whether `candidates[i]` is an existing file.
pub fn pick_reconciled(candidates: &Vec<String>, exists: &Vec<bool>) -> (r: Option<String>)
    requires
        candidates@.len() == exists@.len(),
    ensures
        match r {
            Some(p) => first_existing(views(candidates@), exists@) == Some(p@),
            None => first_existing(views(candidates@), exists@) is None,
        },
{
    let n = candidates.len();
    let ghost vc = views(candidates@);
    let mut i: usize = 0;
    assert(vc.subrange(0, n as int) =~= vc);
    assert(exists@.subrange(0, n as int) =~= exists@);
    while i < n
        invariant
            i <= n,
            n == candidates@.len(),
            n == exists@.len(),
            vc == views(candidates@),
            first_existing(vc, exists@) == first_existing(vc.subrange(i as int, n as int), exists@.subrange(i as int, n as int)),
        decreases n - i,
    {
        assert(vc.subrange(i as int, n as int).drop_first() =~= vc.subrange(i + 1, n as int));
        assert(exists@.subrange(i as int, n as int).drop_first() =~= exists@.subrange(i + 1, n as int));
        assert(candidates@[i as int]@ == vc[i as int]);
        if exists[i] {
            return Some(candidates[i].clone());
        }
        i += 1;
    }
    None
}

/// Relies on std::path::Path::is_file: whether a regular file is at `path`
/// now. The answer depends on the file system, so nothing is stated of it.
#[verifier::external_body]
fn path_is_file(path: &str) -> (r: bool) {
    std::path::Path::new(path).is_file()
}

/// The view of an optional string.
pub open spec fn opt_view(o: Option<String>) -> Option<Seq<char>> {
    match o {
        Some(p) => Some(p@),
        None => None,
    }
}

/// `r` is what reconciling `stored` gives for some answers of the file
/// system: the first candidate, nearest match first, that was found to exist.
pub open spec fn reconciles_to(stored: Seq<char>, root: Seq<char>, r: Option<Seq<char>>) -> bool {
    exists|probes: Seq<bool>|
        probes.len() == candidate_paths(stored, root).len()
        && #[trigger] first_existing(candidate_paths(stored, root), probes) == r
}

proof fn lemma_first_existing_at(c: Seq<Seq<char>>, e: Seq<bool>, i: int)
    requires
        c.len() == e.len(),
        0 <= i <= c.len(),
        forall|j: int| 0 <= j < i ==> !e[j],
        i < c.len() ==> e[i],
    ensures
        first_existing(c, e) == (if i < c.len() { Some(c[i]) } else { None::<Seq<char>> }),
    decreases i,
{
    if i > 0 {
        assert forall|j: int| 0 <= j < i - 1 implies !e.drop_first()[j] by {
            assert(e.drop_first()[j] == e[j + 1]);
        }
        lemma_first_existing_at(c.drop_first(), e.drop_first(), i - 1);
    }
}

/// Reconciles a catalog path with the local library root: the first
/// candidate, nearest match first, that is an existing file at the moment it
/// is probed; `None` when no candidate is.
pub fn path_from_db_to_real(path_from_db_string: &String, path_to_library: &String) -> (r: Option<String>)
    ensures
        reconciles_to(path_from_db_string@, path_to_library@, opt_view(r)),
        candidate_paths(path_from_db_string@, path_to_library@).len() == 0 ==> r is None,
{
    let cands = reconcile_candidates(path_from_db_string.as_str(), path_to_library.as_str());
    let ghost vc = views(cands@);
    let n = cands.len();
    let mut i: usize = 0;
    while i < n
        invariant
            i <= n,
            n == cands@.len(),
            vc == views(cands@),
            vc == candidate_paths(path_from_db_string@, path_to_library@),
        decreases n - i,
    {
        if path_is_file(cands[i].as_str()) {
            let ghost probes = Seq::new(n as nat, |j: int| j == i);
            proof {
                lemma_first_existing_at(vc, probes, i as int);
                assert(vc[i as int] == cands@[i as int]@);
            }
            let found = cands[i].clone();
            assert(first_existing(vc, probes) == opt_view(Some(found)));
            return Some(found);
        }
        i += 1;
    }
    let ghost probes = Seq::new(n as nat, |j: int| false);
    proof {
        lemma_first_existing_at(vc, probes, n as int);
    }
    assert(first_existing(vc, probes) == opt_view(None));
    None
}

} // verus!
