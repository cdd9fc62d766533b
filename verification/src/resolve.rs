//! Mapping a requested path onto the content root.
//!
//! The content root is the sandbox boundary: every resolved filesystem path
//! is the root followed by a relative remainder that holds no
//! parent-directory (`..`) segment and does not start with a separator. A
//! request for `/` is the root index document; a request whose path still
//! holds `..` after sanitising is sent to the fallback document instead of
//! the filesystem.

use vstd::prelude::*;

verus! {

use crate::bytes::ascii_view;
use crate::bytes::push_ascii;
use crate::bytes::sub_bytes;

/// Where a request leads on the filesystem, and whether it was diverted to
/// the fallback document.
pub struct ResolvedTarget {
    pub filesystem_path: Vec<u8>,
    pub is_fallback: bool,
}

/// The mathematical content of a `ResolvedTarget`.
pub ghost struct TargetModel {
    pub filesystem_path: Seq<u8>,
    pub is_fallback: bool,
}

impl View for ResolvedTarget {
    type V = TargetModel;

    open spec fn view(&self) -> TargetModel {
        TargetModel { filesystem_path: self.filesystem_path@, is_fallback: self.is_fallback }
    }
}

/// True when `s` holds two consecutive dots anywhere.
pub open spec fn contains_dotdot(s: Seq<u8>) -> bool {
    exists|i: int|
        0 <= i && i + 1 < s.len() && #[trigger] s[i] == '.' as u8 && s[i + 1] == '.' as u8
}

/// `s` with every leading separator removed.
pub open spec fn strip_slashes(s: Seq<u8>) -> Seq<u8>
    decreases s.len(),
{
    if s.len() > 0 && s[0] == '/' as u8 {
        strip_slashes(s.drop_first())
    } else {
        s
    }
}

/// The relative path a request asks for: `/` means the index document, any
/// other path loses its leading separators.
pub open spec fn sanitize_spec(p: Seq<u8>) -> Seq<u8> {
    if p == seq!['/' as u8] {
        ascii_view("index.html"@)
    } else {
        strip_slashes(p)
    }
}

/// The fallback document's path relative to the content root.
pub open spec fn fallback_rel() -> Seq<u8> {
    ascii_view("404.html"@)
}

/// True when resolving `p` is diverted to the fallback document.
pub open spec fn is_fallback_spec(p: Seq<u8>) -> bool {
    contains_dotdot(sanitize_spec(p))
}

/// The filesystem path resolving `p` under `root` leads to.
pub open spec fn resolved_path_spec(root: Seq<u8>, p: Seq<u8>) -> Seq<u8> {
    if is_fallback_spec(p) {
        root + fallback_rel()
    } else {
        root + sanitize_spec(p)
    }
}

/// What `resolve_path` returns.
pub open spec fn resolve_spec(root: Seq<u8>, p: Seq<u8>) -> TargetModel {
    TargetModel {
        filesystem_path: resolved_path_spec(root, p),
        is_fallback: is_fallback_spec(p),
    }
}

/// True when the slice holds two consecutive dots anywhere.
pub fn has_dotdot(s: &[u8]) -> (r: bool)
    ensures
        r == contains_dotdot(s@),
{
    if s.len() < 2 {
        return false;
    }
    let mut i: usize = 0;
    while i < s.len() - 1
        invariant
            s@.len() >= 2,
            i + 1 <= s@.len(),
            forall|j: int|
                0 <= j < i ==> !(#[trigger] s@[j] == '.' as u8 && s@[j + 1] == '.' as u8),
        decreases s@.len() - i,
    {
        if s[i] == '.' as u8 && s[i + 1] == '.' as u8 {
            proof {
                assert(s@[i as int] == '.' as u8 && s@[i as int + 1] == '.' as u8);
            }
            return true;
        }
        i += 1;
    }
    false
}

/// Stripping at the first non-separator position agrees with the recursive
/// definition.
pub proof fn lemma_strip_slashes_at(s: Seq<u8>, k: int)
    requires
        0 <= k <= s.len(),
        forall|j: int| 0 <= j < k ==> s[j] == '/' as u8,
        k == s.len() || s[k] != '/' as u8,
    ensures
        strip_slashes(s) == s.subrange(k, s.len() as int),
    decreases k,
{
    if k == 0 {
        assert(s.subrange(0, s.len() as int) =~= s);
    } else {
        let t = s.drop_first();
        assert(forall|j: int| 0 <= j < k - 1 ==> t[j] == '/' as u8);
        lemma_strip_slashes_at(t, k - 1);
        assert(t.subrange(k - 1, t.len() as int) =~= s.subrange(k, s.len() as int));
    }
}

/// Resolves a requested path under `root`.
///
/// `/` becomes the root index document; any other path loses its leading
/// separators and is joined onto the root, unless it still holds `..`, in
/// which case the target is the fallback document under the root.
pub fn resolve_path(root: &[u8], path: &[u8]) -> (t: ResolvedTarget)
    ensures
        t@ == resolve_spec(root@, path@),
{
    let sanitized: Vec<u8> = if path.len() == 1 && path[0] == '/' as u8 {
        proof {
            assert(path@ =~= seq!['/' as u8]);
        }
        let mut v: Vec<u8> = Vec::new();
        proof {
            reveal_strlit("index.html");
        }
        push_ascii(&mut v, "index.html");
        v
    } else {
        let mut k: usize = 0;
        while k < path.len() && path[k] == '/' as u8
            invariant
                k <= path@.len(),
                forall|j: int| 0 <= j < k ==> path@[j] == '/' as u8,
            decreases path@.len() - k,
        {
            k += 1;
        }
        proof {
            lemma_strip_slashes_at(path@, k as int);
            if path@ == seq!['/' as u8] {
                assert(path@.len() == 1 && path@[0] == '/' as u8);
            }
        }
        sub_bytes(path, k, path.len())
    };
    proof {
        assert(sanitized@ == sanitize_spec(path@));
    }
    let fb = has_dotdot(sanitized.as_slice());
    let mut fs: Vec<u8> = Vec::new();
    fs.extend_from_slice(root);
    if fb {
        proof {
            reveal_strlit("404.html");
        }
        push_ascii(&mut fs, "404.html");
    } else {
        fs.extend_from_slice(sanitized.as_slice());
    }
    proof {
        if fb {
            assert(fs@ =~= root@ + fallback_rel());
        } else {
            assert(fs@ =~= root@ + sanitize_spec(path@));
        }
    }
    ResolvedTarget { filesystem_path: fs, is_fallback: fb }
}

/// The fallback document's full path under `root`.
pub fn fallback_path(root: &[u8]) -> (r: Vec<u8>)
    ensures
        r@ == root@ + fallback_rel(),
{
    let mut fs: Vec<u8> = Vec::new();
    fs.extend_from_slice(root);
    proof {
        reveal_strlit("404.html");
    }
    push_ascii(&mut fs, "404.html");
    fs
}

} // verus!
