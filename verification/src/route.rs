//! Classification of a request path against the three mount points, and
//! the safety check on static-asset paths.
//!
//! A path is a sequence of bytes, as it arrives on the wire after percent
//! decoding. Two mounts claim prefixes of the path: `/static` for asset
//! files and `/api` for the (empty) API namespace. Every other path falls
//! to the catch-all page. The remainder of a static path is accepted only
//! when it is a safe relative path: non-empty, with no empty segment and
//! no `.` or `..` segment, so resolution can never escape the asset root.

use vstd::prelude::*;

verus! {

/// ASCII `/`.
pub const SLASH: u8 = 47;

/// ASCII `.`.
pub const DOT: u8 = 46;

/// The mount that a path falls under.
#[derive(PartialEq, Eq, Structural, Clone, Copy, Debug)]
pub enum RouteClass {
    /// The path lies under the static-asset mount.
    StaticAsset,
    /// The path lies under the API mount.
    Api,
    /// Any other path: served the fixed page.
    CatchAll,
}

/// What the server should do with a request path.
pub enum Decision {
    /// Serve the fixed HTML document with success.
    Page,
    /// Read the file at this relative path under the asset root and serve
    /// its bytes. The path is guaranteed safe: see [`safe_rel_path`].
    StaticFile(Vec<u8>),
    /// Answer not-found: an API path (no routes are registered), or a
    /// static path that is missing, empty or unsafe.
    NotFound,
}

/// The byte string `/static`.
pub open spec fn static_mount() -> Seq<u8> {
    seq![SLASH, 115u8, 116u8, 97u8, 116u8, 105u8, 99u8]
}

/// The byte string `/api`.
pub open spec fn api_mount() -> Seq<u8> {
    seq![SLASH, 97u8, 112u8, 105u8]
}

/// A path `p` lies under mount `m` when `m` is a whole-segment prefix of
/// `p`: `p` is exactly `m`, or continues with a `/`.
pub open spec fn in_mount(p: Seq<u8>, m: Seq<u8>) -> bool {
    &&& p.len() >= m.len()
    &&& p.subrange(0, m.len() as int) == m
    &&& (p.len() == m.len() || p[m.len() as int] == SLASH)
}

/// The mount a path falls under, with the static mount taking priority.
pub open spec fn spec_classify(p: Seq<u8>) -> RouteClass {
    if in_mount(p, static_mount()) {
        RouteClass::StaticAsset
    } else if in_mount(p, api_mount()) {
        RouteClass::Api
    } else {
        RouteClass::CatchAll
    }
}

/// The part of a static path after `/static/`; empty for `/static` itself.
pub open spec fn static_rest(p: Seq<u8>) -> Seq<u8>
    recommends
        in_mount(p, static_mount()),
{
    if p.len() > static_mount().len() + 1 {
        p.subrange(static_mount().len() as int + 1, p.len() as int)
    } else {
        Seq::empty()
    }
}

/// Byte `i` begins a segment of `s`: it is the first byte, or follows a `/`.
pub open spec fn seg_start(s: Seq<u8>, i: int) -> bool {
    0 <= i < s.len() && (i == 0 || s[i - 1] == SLASH)
}

/// The segment beginning at `i` is exactly `.`.
pub open spec fn dot_seg_at(s: Seq<u8>, i: int) -> bool
    recommends
        seg_start(s, i),
{
    s[i] == DOT && (i + 1 == s.len() || s[i + 1] == SLASH)
}

/// The segment beginning at `i` is exactly `..`.
pub open spec fn dotdot_seg_at(s: Seq<u8>, i: int) -> bool
    recommends
        seg_start(s, i),
{
    &&& i + 1 < s.len()
    &&& s[i] == DOT
    &&& s[i + 1] == DOT
    &&& (i + 2 == s.len() || s[i + 2] == SLASH)
}

/// A safe relative path: non-empty, no leading or trailing `/`, no empty
/// segment, and no segment equal to `.` or `..`. Joined under a root
/// directory, such a path can only name something at or below the root.
pub open spec fn safe_rel_path(s: Seq<u8>) -> bool {
    &&& s.len() > 0
    &&& s[0] != SLASH
    &&& s[s.len() - 1] != SLASH
    &&& (forall|i: int| 0 <= i < s.len() - 1 ==> !(#[trigger] s[i] == SLASH && s[i + 1] == SLASH))
    &&& (forall|i: int| seg_start(s, i) ==> !dot_seg_at(s, i) && !dotdot_seg_at(s, i))
}

/// The routing contract: what a correct decision for path `p` is.
/// A catch-all path is served the page; an API path is not found (no
/// routes are registered); a static path is served the file at its safe
/// remainder, or not found when the remainder is empty or unsafe.
pub open spec fn decision_ok(p: Seq<u8>, d: Decision) -> bool {
    match spec_classify(p) {
        RouteClass::CatchAll => d is Page,
        RouteClass::Api => d is NotFound,
        RouteClass::StaticAsset => {
            if safe_rel_path(static_rest(p)) {
                d matches Decision::StaticFile(r) && r@ == static_rest(p)
            } else {
                d is NotFound
            }
        },
    }
}

/// The two mounts are disjoint: no path lies under both.
pub proof fn lemma_mounts_disjoint(p: Seq<u8>)
    ensures
        !(in_mount(p, static_mount()) && in_mount(p, api_mount())),
{
    if in_mount(p, static_mount()) && in_mount(p, api_mount()) {
        assert(p.subrange(0, static_mount().len() as int)[1] == p[1]);
        assert(p.subrange(0, api_mount().len() as int)[1] == p[1]);
        assert(false);
    }
}

/// Any path under neither mount — whatever it is, including `/` and
/// multi-segment paths — is served the fixed page.
pub proof fn lemma_catch_all_served_page(p: Seq<u8>, d: Decision)
    requires
        !in_mount(p, static_mount()),
        !in_mount(p, api_mount()),
        decision_ok(p, d),
    ensures
        d is Page,
{
}

/// Every path under the API mount is not found: no API routes are
/// registered.
pub proof fn lemma_api_not_found(p: Seq<u8>, d: Decision)
    requires
        in_mount(p, api_mount()),
        decision_ok(p, d),
    ensures
        d is NotFound,
{
    lemma_mounts_disjoint(p);
}

/// A static path whose remainder is safe is dispatched to exactly that
/// file under the asset root: the served relative path is the request
/// path's remainder, byte for byte.
pub proof fn lemma_static_file_exact(p: Seq<u8>, d: Decision)
    requires
        in_mount(p, static_mount()),
        safe_rel_path(static_rest(p)),
        decision_ok(p, d),
    ensures
        d matches Decision::StaticFile(r) && r@ == static_rest(p),
{
}

/// A traversal attempt — a `..` segment anywhere in the remainder of a
/// static path — is never dispatched to a file: the decision is
/// not-found, so no content from outside the asset root can be served.
pub proof fn lemma_traversal_rejected(p: Seq<u8>, d: Decision, i: int)
    requires
        in_mount(p, static_mount()),
        seg_start(static_rest(p), i),
        dotdot_seg_at(static_rest(p), i),
        decision_ok(p, d),
    ensures
        d is NotFound,
{
    if safe_rel_path(static_rest(p)) {
        assert(!dotdot_seg_at(static_rest(p), i));
    }
}

/// Whatever file a dispatch serves, its relative path is safe: it has no
/// empty, `.` or `..` segment, so it resolves at or below the asset root.
pub proof fn lemma_served_file_is_safe(p: Seq<u8>, d: Decision)
    requires
        decision_ok(p, d),
        d is StaticFile,
    ensures
        safe_rel_path(d->0@),
        d->0@ == static_rest(p),
{
}

/// The decision for a path depends on that path alone: two correct
/// decisions for the same path agree, so requests are independent and
/// their order immaterial.
pub proof fn lemma_decision_deterministic(p: Seq<u8>, d1: Decision, d2: Decision)
    requires
        decision_ok(p, d1),
        decision_ok(p, d2),
    ensures
        d1 is Page <==> d2 is Page,
        d1 is NotFound <==> d2 is NotFound,
        d1 is StaticFile <==> d2 is StaticFile,
        d1 is StaticFile ==> d1->0@ == d2->0@,
{
}

/// The byte string `/static` as a vector.
fn static_mount_vec() -> (v: Vec<u8>)
    ensures
        v@ == static_mount(),
{
    let mut v: Vec<u8> = Vec::new();
    v.push(SLASH);
    v.push(115);
    v.push(116);
    v.push(97);
    v.push(116);
    v.push(105);
    v.push(99);
    proof {
        assert(v@ =~= static_mount());
    }
    v
}

/// The byte string `/api` as a vector.
fn api_mount_vec() -> (v: Vec<u8>)
    ensures
        v@ == api_mount(),
{
    let mut v: Vec<u8> = Vec::new();
    v.push(SLASH);
    v.push(97);
    v.push(112);
    v.push(105);
    proof {
        assert(v@ =~= api_mount());
    }
    v
}

/// Whether `path` lies under the mount `m`.
fn matches_mount(path: &Vec<u8>, m: &Vec<u8>) -> (r: bool)
    ensures
        r == in_mount(path@, m@),
{
    if path.len() < m.len() {
        return false;
    }
    let mut i: usize = 0;
    while i < m.len()
        invariant
            0 <= i <= m.len() <= path.len(),
            forall|j: int| 0 <= j < i ==> path@[j] == m@[j],
        decreases m.len() - i,
    {
        if path[i] != m[i] {
            proof {
                assert(in_mount(path@, m@) ==> path@.subrange(0, m@.len() as int)[i as int]
                    == m@[i as int]);
            }
            return false;
        }
        i += 1;
    }
    proof {
        assert(path@.subrange(0, m@.len() as int) =~= m@);
    }
    if path.len() == m.len() {
        true
    } else {
        path[m.len()] == SLASH
    }
}

/// Whether `s` is a safe relative path: see [`safe_rel_path`].
fn is_safe_rel_path(s: &Vec<u8>) -> (r: bool)
    ensures
        r == safe_rel_path(s@),
{
    if s.len() == 0 {
        return false;
    }
    if s[0] == SLASH {
        return false;
    }
    if s[s.len() - 1] == SLASH {
        return false;
    }
    let mut i: usize = 0;
    while i < s.len()
        invariant
            0 <= i <= s@.len(),
            s@.len() > 0,
            s@[0] != SLASH,
            s@[s@.len() - 1] != SLASH,
            forall|j: int| 0 <= j < i && j < s@.len() - 1 ==> !(#[trigger] s@[j] == SLASH && s@[j
                + 1] == SLASH),
            forall|j: int| 0 <= j < i && seg_start(s@, j) ==> !dot_seg_at(s@, j) && !dotdot_seg_at(
                s@,
                j,
            ),
        decreases s@.len() - i,
    {
        if i + 1 < s.len() && s[i] == SLASH && s[i + 1] == SLASH {
            return false;
        }
        let at_start = i == 0 || s[i - 1] == SLASH;
        if at_start && s[i] == DOT {
            if i + 1 == s.len() || s[i + 1] == SLASH {
                proof {
                    assert(seg_start(s@, i as int) && dot_seg_at(s@, i as int));
                }
                return false;
            }
            if s[i + 1] == DOT && (i + 2 == s.len() || s[i + 2] == SLASH) {
                proof {
                    assert(seg_start(s@, i as int) && dotdot_seg_at(s@, i as int));
                }
                return false;
            }
        }
        i += 1;
    }
    true
}

/// Route a request path to a decision: the page for a catch-all path,
/// not-found for an API path, and for a static path the safe relative
/// remainder to read under the asset root, or not-found when the
/// remainder is empty or unsafe.
pub fn route(path: &Vec<u8>) -> (d: Decision)
    ensures
        decision_ok(path@, d),
{
    let stat = static_mount_vec();
    if matches_mount(path, &stat) {
        if path.len() > stat.len() + 1 {
            let mut rest: Vec<u8> = Vec::new();
            let mut i: usize = stat.len() + 1;
            while i < path.len()
                invariant
                    stat@.len() + 1 <= i <= path@.len(),
                    stat@ == static_mount(),
                    rest@ =~= path@.subrange(stat@.len() as int + 1, i as int),
                decreases path@.len() - i,
            {
                let b = path[i];
                rest.push(b);
                i += 1;
            }
            proof {
                assert(rest@ =~= static_rest(path@));
            }
            if is_safe_rel_path(&rest) {
                Decision::StaticFile(rest)
            } else {
                Decision::NotFound
            }
        } else {
            proof {
                assert(static_rest(path@) =~= Seq::<u8>::empty());
            }
            Decision::NotFound
        }
    } else {
        let api = api_mount_vec();
        if matches_mount(path, &api) {
            Decision::NotFound
        } else {
            Decision::Page
        }
    }
}

} // verus!
