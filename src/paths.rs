use vstd::prelude::*;
use crate::status::{Code, Status};

verus! {

/// `s` with every leading `/` removed, so that it reads as a relative path.
pub open spec fn strip_seps(s: Seq<char>) -> Seq<char>
    decreases s.len(),
{
    if s.len() > 0 && s[0] == '/' {
        strip_seps(s.drop_first())
    } else {
        s
    }
}

/// `rel` appended to `base` with exactly one separator between them; an
/// empty `rel` leaves `base` as it is.
pub open spec fn join_spec(base: Seq<char>, rel: Seq<char>) -> Seq<char> {
    if rel.len() == 0 {
        base
    } else if base.len() > 0 && base.last() == '/' {
        base + rel
    } else {
        base + seq!['/'] + rel
    }
}

/// Component-wise containment: `p` is `root` itself or lies below it.
pub open spec fn within(root: Seq<char>, p: Seq<char>) -> bool {
    &&& root.len() <= p.len()
    &&& p.subrange(0, root.len() as int) == root
    &&& (p.len() == root.len() || (root.len() > 0 && root.last() == '/') || p[root.len() as int]
        == '/')
}

/// A `..` component starts at index `i` of `s`.
pub open spec fn parent_at(s: Seq<char>, i: int) -> bool {
    &&& 0 <= i
    &&& i + 2 <= s.len()
    &&& s[i] == '.'
    &&& s[i + 1] == '.'
    &&& (i == 0 || s[i - 1] == '/')
    &&& (i + 2 == s.len() || s[i + 2] == '/')
}

/// `s` holds a `..` component.
pub open spec fn has_parent(s: Seq<char>) -> bool {
    exists|i: int| parent_at(s, i)
}

proof fn lemma_strip_step(s: Seq<char>, i: int)
    requires
        0 <= i < s.len(),
        s[i] == '/',
    ensures
        strip_seps(s.subrange(i, s.len() as int)) == strip_seps(s.subrange(i + 1, s.len() as int)),
{
    assert(s.subrange(i, s.len() as int).drop_first() =~= s.subrange(i + 1, s.len() as int));
}

/// Removes every leading `/` of `s`, so that joining the result onto a root
/// never replaces the root.
pub fn strip_leading_separators(s: &str) -> (r: &str)
    ensures
        r@ == strip_seps(s@),
{
    let n = s.unicode_len();
    let mut i: usize = 0;
    assert(s@.subrange(0, s@.len() as int) =~= s@);
    while i < n && s.get_char(i) == '/'
        invariant
            n == s@.len(),
            i <= n,
            strip_seps(s@.subrange(i as int, n as int)) == strip_seps(s@),
        decreases n - i,
    {
        proof {
            lemma_strip_step(s@, i as int);
        }
        i = i + 1;
    }
    s.substring_char(i, n)
}

/// Joins `rel` onto `base`, putting one `/` between them where `base` does not
/// already end with one.
pub fn join_path(base: &str, rel: &str) -> (r: String)
    ensures
        r@ == join_spec(base@, rel@),
{
    let mut r = String::from_str(base);
    let nb = base.unicode_len();
    if rel.unicode_len() == 0 {
        return r;
    }
    if nb == 0 || base.get_char(nb - 1) != '/' {
        proof {
            reveal_strlit("/");
        }
        r.append("/");
    }
    r.append(rel);
    r
}

/// Whether `p` is `root` or a path below it, compared component-wise on
/// canonical paths (`/home/ab` is not below `/home/a`).
pub fn is_within(root: &str, p: &str) -> (r: bool)
    ensures
        r == within(root@, p@),
{
    let nr = root.unicode_len();
    let np = p.unicode_len();
    if nr > np {
        return false;
    }
    let mut i: usize = 0;
    while i < nr
        invariant
            nr == root@.len(),
            np == p@.len(),
            nr <= np,
            i <= nr,
            forall|j: int| 0 <= j < i ==> p@[j] == root@[j],
        decreases nr - i,
    {
        if p.get_char(i) != root.get_char(i) {
            assert(p@.subrange(0, nr as int)[i as int] != root@[i as int]);
            return false;
        }
        i = i + 1;
    }
    assert(p@.subrange(0, nr as int) =~= root@);
    if np == nr {
        return true;
    }
    if nr > 0 && root.get_char(nr - 1) == '/' {
        return true;
    }
    p.get_char(nr) == '/'
}

/// Whether `s` holds a `..` component, which could lead out of the directory
/// it is joined onto.
pub fn has_parent_component(s: &str) -> (r: bool)
    ensures
        r == has_parent(s@),
{
    let n = s.unicode_len();
    let mut i: usize = 0;
    while n > 0 && i < n - 1
        invariant
            n == s@.len(),
            i <= n,
            forall|j: int| 0 <= j < i ==> !parent_at(s@, j),
        decreases n - i,
    {
        if s.get_char(i) == '.' && s.get_char(i + 1) == '.' && (i == 0 || s.get_char(i - 1) == '/')
            && (i + 2 == n || s.get_char(i + 2) == '/') {
            assert(parent_at(s@, i as int));
            return true;
        }
        i = i + 1;
    }
    assert forall|j: int| !parent_at(s@, j) by {
        if 0 <= j < i {
        }
    }
    false
}

/// The path that a request names: `requested`, with its leading separators
/// removed, joined onto `root`.
pub open spec fn target_spec(root: Seq<char>, requested: Seq<char>) -> Seq<char> {
    join_spec(root, strip_seps(requested))
}

/// What the sandbox decides, given the canonical forms of the root and of the
/// joined path (`None` where canonicalization failed).
pub open spec fn resolve_spec(canonical_root: Option<Seq<char>>, canonical_path: Option<Seq<char>>) -> Result<Seq<char>, Code> {
    match canonical_root {
        None => Err(Code::Internal),
        Some(root) => match canonical_path {
            None => Err(Code::NotFound),
            Some(p) => if within(root, p) {
                Ok(p)
            } else {
                Err(Code::PermissionDenied)
            },
        },
    }
}

pub open spec fn opt_view(o: Option<&str>) -> Option<Seq<char>> {
    match o {
        Some(s) => Some(s@),
        None => None,
    }
}

/// Decides a sandboxed lookup from the canonical root and the canonical form
/// of the joined path: `Internal` when the root cannot be canonicalized,
/// `NotFound` when the path cannot, `PermissionDenied` when it escapes the
/// root, and otherwise the canonical path. The check runs on canonical paths
/// only, so `..` segments and symbolic links cannot slip past it.
pub fn resolve_in_root(canonical_root: Option<&str>, canonical_path: Option<&str>) -> (r: Result<
    String,
    Status,
>)
    ensures
        match resolve_spec(opt_view(canonical_root), opt_view(canonical_path)) {
            Ok(p) => r is Ok && r->Ok_0@ == p,
            Err(c) => r is Err && r->Err_0.code == c,
        },
{
    match canonical_root {
        None => Err(Status::new(Code::Internal, String::from_str("server root is invalid or inaccessible"))),
        Some(root) => match canonical_path {
            None => Err(Status::new(Code::NotFound, String::from_str("directory not found or inaccessible"))),
            Some(p) => if is_within(root, p) {
                Ok(String::from_str(p))
            } else {
                Err(Status::new(Code::PermissionDenied, String::from_str("access to this path is denied")))
            },
        },
    }
}

/// The path that a request names under `root`; the caller canonicalizes it and
/// hands the result to [`resolve_in_root`].
pub fn sandbox_target(root: &str, requested: &str) -> (r: String)
    ensures
        r@ == target_spec(root@, requested@),
{
    let rel = strip_leading_separators(requested);
    join_path(root, rel)
}

} // verus!

verus! {

pub open spec fn prefix_of(pre: Seq<char>, s: Seq<char>) -> bool {
    pre.len() <= s.len() && s.subrange(0, pre.len() as int) == pre
}

/// Whether `s` begins with the characters of `pre`.
pub fn starts_with(s: &str, pre: &str) -> (r: bool)
    ensures
        r == prefix_of(pre@, s@),
{
    let np = pre.unicode_len();
    let ns = s.unicode_len();
    if np > ns {
        return false;
    }
    let mut i: usize = 0;
    while i < np
        invariant
            np == pre@.len(),
            ns == s@.len(),
            np <= ns,
            i <= np,
            forall|j: int| 0 <= j < i ==> s@[j] == pre@[j],
        decreases np - i,
    {
        if s.get_char(i) != pre.get_char(i) {
            assert(s@.subrange(0, np as int)[i as int] != pre@[i as int]);
            return false;
        }
        i = i + 1;
    }
    assert(s@.subrange(0, np as int) =~= pre@);
    true
}

} // verus!

verus! {

/// A path whose canonical form lies outside the root is refused with
/// `PermissionDenied`, never reported as missing.
pub proof fn escape_is_denied(root: Seq<char>, p: Seq<char>)
    requires
        !within(root, p),
    ensures
        resolve_spec(Some(root), Some(p)) == Err::<Seq<char>, Code>(Code::PermissionDenied),
{
}

/// A path whose canonical form lies within the root resolves to itself.
pub proof fn contained_is_resolved(root: Seq<char>, p: Seq<char>)
    requires
        within(root, p),
    ensures
        resolve_spec(Some(root), Some(p)) == Ok::<Seq<char>, Code>(p),
{
}

} // verus!

verus! {

/// What the local browser answers for a lookup, given the canonical root and
/// the canonical form of the joined path, or the reason each could not be
/// had: the directory to read, or the text shown to the user.
pub open spec fn resolve_local_spec(canonical_root: Result<Seq<char>, Seq<char>>, canonical_path: Result<Seq<char>, Seq<char>>) -> Result<Seq<char>, Seq<char>> {
    match canonical_root {
        Err(e) => Err("Invalid base path: "@ + e),
        Ok(root) => match canonical_path {
            Err(e) => Err("Directory not found or inaccessible: "@ + e),
            Ok(p) => if within(root, p) {
                Ok(p)
            } else {
                Err("Access to this local path is restricted."@)
            },
        },
    }
}

pub open spec fn res_view(r: Result<String, String>) -> Result<Seq<char>, Seq<char>> {
    match r {
        Ok(s) => Ok(s@),
        Err(e) => Err(e@),
    }
}

/// Decides a lookup of the local browser, with the same sandbox check on
/// canonical paths as [`resolve_in_root`] and the browser's own texts.
pub fn resolve_local(canonical_root: Result<String, String>, canonical_path: Result<String, String>) -> (r:
    Result<String, String>)
    ensures
        res_view(r) == resolve_local_spec(res_view(canonical_root), res_view(canonical_path)),
{
    match canonical_root {
        Err(e) => {
            let mut m = String::from_str("Invalid base path: ");
            m.append(e.as_str());
            Err(m)
        },
        Ok(root) => match canonical_path {
            Err(e) => {
                let mut m = String::from_str("Directory not found or inaccessible: ");
                m.append(e.as_str());
                Err(m)
            },
            Ok(p) => if is_within(root.as_str(), p.as_str()) {
                Ok(p)
            } else {
                Err(String::from_str("Access to this local path is restricted."))
            },
        },
    }
}

} // verus!
