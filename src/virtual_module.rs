use vstd::prelude::*;
use vstd::string::StrSliceExecFns;

verus! {

/// Path prefix of the virtual entries that the compiler synthesizes for dynamic imports.
pub const DYNAMIC_VIRTUAL_PREFIX: &'static str = "farm_dynamic_import_virtual_module:";

/// Path suffix of the proxy modules generated for CSS modules.
pub const FARM_CSS_MODULES_SUFFIX: &'static str = ".FARM_CSS_MODULES";

/// Path suffix of the runtime bootstrap modules.
pub const RUNTIME_SUFFIX: &'static str = ".farm-runtime";

pub open spec fn has_prefix(s: Seq<char>, p: Seq<char>) -> bool {
    p.len() <= s.len() && s.subrange(0, p.len() as int) == p
}

pub open spec fn has_suffix(s: Seq<char>, p: Seq<char>) -> bool {
    p.len() <= s.len() && s.subrange(s.len() - p.len(), s.len() as int) == p
}

/// A path that the compiler generated itself and that plugin hooks must never see.
pub open spec fn is_internal_virtual(path: Seq<char>) -> bool {
    has_prefix(path, DYNAMIC_VIRTUAL_PREFIX@)
        || has_suffix(path, FARM_CSS_MODULES_SUFFIX@)
        || has_suffix(path, RUNTIME_SUFFIX@)
}

/// Compares the characters of `s` from `start` on with those of `p`.
fn matches_at(s: &str, s_len: usize, p: &str, p_len: usize, start: usize) -> (r: bool)
    requires
        s_len == s@.len(),
        p_len == p@.len(),
        start + p_len <= s_len,
    ensures
        r == (s@.subrange(start as int, start + p_len) == p@),
{
    let mut i: usize = 0;
    while i < p_len
        invariant
            s_len == s@.len(),
            p_len == p@.len(),
            start + p_len <= s_len,
            i <= p_len,
            s@.subrange(start as int, start + i) == p@.subrange(0, i as int),
        decreases p_len - i,
    {
        if s.get_char(start + i) != p.get_char(i) {
            assert(s@.subrange(start as int, start + p_len)[i as int] != p@[i as int]);
            return false;
        }
        assert(s@.subrange(start as int, start + i + 1) == p@.subrange(0, i + 1));
        i = i + 1;
    }
    assert(p@.subrange(0, p_len as int) == p@);
    true
}

/// Whether `s` begins with `p`, compared character by character.
pub fn starts_with(s: &str, p: &str) -> (r: bool)
    ensures
        r == has_prefix(s@, p@),
{
    let s_len = s.unicode_len();
    let p_len = p.unicode_len();
    if p_len > s_len {
        return false;
    }
    matches_at(s, s_len, p, p_len, 0)
}

/// Whether `s` ends with `p`, compared character by character.
pub fn ends_with(s: &str, p: &str) -> (r: bool)
    ensures
        r == has_suffix(s@, p@),
{
    let s_len = s.unicode_len();
    let p_len = p.unicode_len();
    if p_len > s_len {
        return false;
    }
    matches_at(s, s_len, p, p_len, s_len - p_len)
}

/// Whether `path` names a module that the compiler synthesized: a dynamic virtual
/// entry, a CSS-module proxy or a runtime bootstrap module.
pub fn is_internal_virtual_module(path: &str) -> (r: bool)
    ensures
        r == is_internal_virtual(path@),
{
    starts_with(path, DYNAMIC_VIRTUAL_PREFIX) || ends_with(path, FARM_CSS_MODULES_SUFFIX)
        || ends_with(path, RUNTIME_SUFFIX)
}

} // verus!
