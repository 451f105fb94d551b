//! Paths as the library handles them: as text, read by the rules of Unix paths (this
//! library builds on Unix only: `dusa_collection_utils` needs `nix`). Joining is done by
//! the path type of `dusa_collection_utils`; the prefix test compares components.

use vstd::prelude::*;
use vstd::string::*;

verus! {

/// The text of the path that results from joining `rel` onto `base`, by the rules of Unix
/// paths (this library builds on Unix only: `dusa_collection_utils` needs `nix`): an
/// absolute `rel`, one that starts with '/', replaces `base`; otherwise a '/' separates
/// the two, unless `base` is empty or already ends with one.
pub open spec fn joined_path(base: Seq<char>, rel: Seq<char>) -> Seq<char> {
    if rel.len() > 0 && rel[0] == '/' {
        rel
    } else if base.len() == 0 || base.last() == '/' {
        base + rel
    } else {
        base + seq!['/'] + rel
    }
}

/// Joins `rel` onto `base` by `PathType`'s view as a `Path` (`Path::join`, that is
/// `PathBuf::push` on a copy of `base`), wraps the result as a `PathType::PathBuf` and
/// renders it with `PathType`'s `Display`. The contract claims that the text is the Unix
/// join of the two texts, `joined_path`; the rendering is exact since both texts are
/// valid UTF-8.
#[verifier::external_body]
pub(crate) fn join_path(base: &String, rel: &String) -> (joined: String)
    ensures
        joined@ == joined_path(base@, rel@),
{
    let base_path = dusa_collection_utils::core::types::pathtype::PathType::Content(
        base.clone(),
    );
    let rel_path = dusa_collection_utils::core::types::pathtype::PathType::Content(rel.clone());
    let joined = base_path.join(rel_path);
    dusa_collection_utils::core::types::pathtype::PathType::PathBuf(joined).to_string()
}

/// The texts of a list of strings.
pub open spec fn string_views(v: Seq<String>) -> Seq<Seq<char>> {
    v.map_values(|s: String| s@)
}

/// A copy of a list of strings.
pub(crate) fn clone_strings(v: &Vec<String>) -> (r: Vec<String>)
    ensures
        string_views(r@) == string_views(v@),
{
    let mut r: Vec<String> = Vec::new();
    let n = v.len();
    let mut i: usize = 0;
    while i < n
        invariant
            n == v@.len(),
            0 <= i <= n,
            r@.len() == i,
            forall|k: int| 0 <= k < i ==> #[trigger] r@[k]@ == v@[k]@,
        decreases n - i,
    {
        r.push(v[i].clone());
        i = i + 1;
    }
    assert(string_views(r@) =~= string_views(v@));
    r
}

/// A normal component: a non-empty segment other than ".".
pub open spec fn is_normal(c: Seq<char>) -> bool {
    c.len() > 0 && c != seq!['.']
}

/// A text without separators.
pub open spec fn no_separator(c: Seq<char>) -> bool {
    forall|i: int| 0 <= i < c.len() ==> c[i] != '/'
}

/// The normal components of `done`, followed by `cur` when it is one.
pub open spec fn close(done: Seq<Seq<char>>, cur: Seq<char>) -> Seq<Seq<char>> {
    if is_normal(cur) {
        done.push(cur)
    } else {
        done
    }
}

/// `s` read from the left: the normal components among the segments already ended by a
/// '/', and the segment still open.
pub open spec fn scan(s: Seq<char>) -> (Seq<Seq<char>>, Seq<char>)
    decreases s.len(),
{
    if s.len() == 0 {
        (seq![], seq![])
    } else {
        let (done, cur) = scan(s.drop_last());
        if s.last() == '/' {
            (close(done, cur), seq![])
        } else {
            (done, cur.push(s.last()))
        }
    }
}

/// The component that starts a path: the root "/" of an absolute path, or "." for a
/// relative path whose first segment is ".".
pub open spec fn lead(s: Seq<char>) -> Seq<Seq<char>> {
    if s.len() > 0 && s[0] == '/' {
        seq![seq!['/']]
    } else if s.len() > 0 && s[0] == '.' && (s.len() == 1 || s[1] == '/') {
        seq![seq!['.']]
    } else {
        seq![]
    }
}

/// The components of the Unix path `s`: its root or leading ".", then its segments
/// between separators, with empty segments and "." left out.
pub open spec fn path_components(s: Seq<char>) -> Seq<Seq<char>> {
    lead(s) + close(scan(s).0, scan(s).1)
}

/// Whether the path `path` starts with the path `base`: the components of `base` are the
/// first components of `path`.
pub open spec fn path_starts_with(path: Seq<char>, base: Seq<char>) -> bool {
    let cp = path_components(path);
    let cb = path_components(base);
    cb.len() <= cp.len() && cp.take(cb.len() as int) == cb
}

/// The texts of a list of character vectors.
pub open spec fn char_seqs(v: Seq<Vec<char>>) -> Seq<Seq<char>> {
    v.map_values(|x: Vec<char>| x@)
}

fn is_normal_chars(c: &Vec<char>) -> (r: bool)
    ensures
        r == is_normal(c@),
{
    if c.len() == 0 {
        false
    } else if c.len() == 1 && c[0] == '.' {
        assert(c@ =~= seq!['.']);
        false
    } else {
        assert(c@ != seq!['.']) by {
            if c@ == seq!['.'] {
                assert(c@[0] == '.');
            }
        }
        true
    }
}

fn same_chars(a: &Vec<char>, b: &Vec<char>) -> (r: bool)
    ensures
        r == (a@ == b@),
{
    if a.len() != b.len() {
        return false;
    }
    let n = a.len();
    let mut i: usize = 0;
    while i < n
        invariant
            n == a@.len(),
            n == b@.len(),
            0 <= i <= n,
            forall|k: int| 0 <= k < i ==> a@[k] == b@[k],
        decreases n - i,
    {
        if a[i] != b[i] {
            return false;
        }
        i = i + 1;
    }
    assert(a@ =~= b@);
    true
}

fn single(c: char) -> (v: Vec<char>)
    ensures
        v@ == seq![c],
{
    let mut v: Vec<char> = Vec::new();
    v.push(c);
    assert(v@ =~= seq![c]);
    v
}

/// The components of the path `s`.
pub fn components(s: &String) -> (r: Vec<Vec<char>>)
    ensures
        char_seqs(r@) == path_components(s@),
{
    let t = s.as_str();
    let n = t.unicode_len();
    let mut r: Vec<Vec<char>> = Vec::new();
    if n > 0 {
        let c0 = t.get_char(0);
        if c0 == '/' {
            r.push(single('/'));
        } else if c0 == '.' && (n == 1 || t.get_char(1) == '/') {
            r.push(single('.'));
        }
    }
    assert(char_seqs(r@) =~= lead(s@));
    let mut done: Vec<Vec<char>> = Vec::new();
    let mut cur: Vec<char> = Vec::new();
    let mut i: usize = 0;
    assert(s@.take(0) =~= Seq::<char>::empty());
    while i < n
        invariant
            n == s@.len(),
            t@ == s@,
            0 <= i <= n,
            char_seqs(done@) == scan(s@.take(i as int)).0,
            cur@ == scan(s@.take(i as int)).1,
        decreases n - i,
    {
        let ch = t.get_char(i);
        assert(s@.take(i + 1).drop_last() =~= s@.take(i as int));
        assert(s@.take(i + 1).last() == ch);
        if ch == '/' {
            if is_normal_chars(&cur) {
                let ghost before = done@;
                done.push(cur);
                assert(char_seqs(done@) =~= char_seqs(before).push(
                    scan(s@.take(i as int)).1,
                ));
            }
            cur = Vec::new();
            assert(cur@ =~= Seq::<char>::empty());
        } else {
            cur.push(ch);
        }
        i = i + 1;
    }
    assert(s@.take(n as int) =~= s@);
    if is_normal_chars(&cur) {
        let ghost before = done@;
        let ghost last = cur@;
        done.push(cur);
        assert(char_seqs(done@) =~= char_seqs(before).push(last));
    }
    let ghost head = r@;
    let ghost tail = done@;
    r.append(&mut done);
    assert(char_seqs(r@) =~= char_seqs(head) + char_seqs(tail));
    r
}

/// Whether the path `path` lies under the path `base` (or is `base`): the components of
/// `base` are the first components of `path`.
pub fn path_is_under(path: &String, base: &String) -> (under: bool)
    ensures
        under == path_starts_with(path@, base@),
{
    let cp = components(path);
    let cb = components(base);
    let ghost sp = char_seqs(cp@);
    let ghost sb = char_seqs(cb@);
    if cb.len() > cp.len() {
        return false;
    }
    let n = cb.len();
    let mut i: usize = 0;
    while i < n
        invariant
            n == cb@.len(),
            n <= cp@.len(),
            sp == char_seqs(cp@),
            sb == char_seqs(cb@),
            sp == path_components(path@),
            sb == path_components(base@),
            0 <= i <= n,
            forall|k: int| 0 <= k < i ==> sp[k] == sb[k],
        decreases n - i,
    {
        if !same_chars(&cp[i], &cb[i]) {
            assert(sp[i as int] == cp@[i as int]@);
            assert(sb[i as int] == cb@[i as int]@);
            assert(sp.take(n as int)[i as int] != sb[i as int]);
            return false;
        }
        assert(sp[i as int] == cp@[i as int]@);
        assert(sb[i as int] == cb@[i as int]@);
        i = i + 1;
    }
    assert(sp.take(n as int) =~= sb);
    true
}

/// Appending a text without separators to a path extends its open segment.
pub proof fn lemma_scan_extend(d: Seq<char>, a: Seq<char>)
    requires
        no_separator(a),
    ensures
        scan(d + a) == (scan(d).0, scan(d).1 + a),
    decreases a.len(),
{
    if a.len() == 0 {
        assert(d + a =~= d);
        assert(scan(d).1 + a =~= scan(d).1);
    } else {
        let a0 = a.drop_last();
        lemma_scan_extend(d, a0);
        assert((d + a).drop_last() =~= d + a0);
        assert((scan(d).1 + a0).push(a.last()) =~= scan(d).1 + a);
    }
}

/// A path `d` followed by '/' and a normal component `a` has the components of `d`,
/// then `a`.
pub proof fn lemma_components_extend(d: Seq<char>, a: Seq<char>)
    requires
        d.len() > 0,
        is_normal(a),
        no_separator(a),
    ensures
        path_components(d.push('/') + a) == path_components(d).push(a),
{
    let s = d.push('/') + a;
    assert(s.drop_last().len() >= 0);
    assert(d.push('/').drop_last() =~= d);
    lemma_scan_extend(d.push('/'), a);
    assert(scan(d.push('/')).1 + a =~= a);
    assert(s[0] == d[0]);
    if d.len() >= 2 {
        assert(s[1] == d[1]);
    } else {
        assert(s[1] == '/');
    }
    assert(lead(s) == lead(d));
    assert(path_components(s) =~= path_components(d).push(a));
}

/// Every path starts with itself.
pub proof fn lemma_starts_with_itself(p: Seq<char>)
    ensures
        path_starts_with(p, p),
{
    assert(path_components(p).take(path_components(p).len() as int) =~= path_components(p));
}

/// A path one normal component below a path that starts with `d` also starts with `d`;
/// so every path at any depth below `d` starts with `d`.
pub proof fn lemma_starts_with_below(p: Seq<char>, d: Seq<char>, a: Seq<char>)
    requires
        path_starts_with(p, d),
        p.len() > 0,
        is_normal(a),
        no_separator(a),
    ensures
        path_starts_with(p.push('/') + a, d),
{
    lemma_components_extend(p, a);
    let cp = path_components(p);
    let cb = path_components(d);
    assert(cp.push(a).take(cb.len() as int) =~= cp.take(cb.len() as int));
}

/// A path two normal components below `d` starts with `d`.
pub proof fn lemma_nested_starts_with(d: Seq<char>, a: Seq<char>, b: Seq<char>)
    requires
        d.len() > 0,
        is_normal(a),
        no_separator(a),
        is_normal(b),
        no_separator(b),
    ensures
        path_starts_with(d.push('/') + a, d),
        path_starts_with((d.push('/') + a).push('/') + b, d),
{
    lemma_starts_with_itself(d);
    lemma_starts_with_below(d, d, a);
    lemma_starts_with_below(d.push('/') + a, d, b);
}

/// A path whose components differ from those of `d` at some place within `d`'s
/// components does not start with `d`: "/tmp/cachex" is not under "/tmp/cache".
pub proof fn lemma_not_under_when_component_differs(p: Seq<char>, d: Seq<char>, k: int)
    requires
        0 <= k < path_components(d).len(),
        k < path_components(p).len(),
        path_components(p)[k] != path_components(d)[k],
    ensures
        !path_starts_with(p, d),
{
    let cp = path_components(p);
    let cb = path_components(d);
    if cb.len() <= cp.len() {
        assert(cp.take(cb.len() as int)[k] == cp[k]);
    }
}

} // verus!
