//! Path handling for forwarding: literal prefix testing, stripping a matched
//! route prefix from the request target, and building the outbound target.
//!
//! Matching is plain substring-at-start: a prefix `/api` also matches
//! `/apiextra`. This mirrors the documented routing rule, which is not
//! path-segment aware.

use vstd::prelude::*;

verus! {

/// The request target after the matched prefix is removed: the remainder of
/// `target` past `prefix`, normalized to `/` when the remainder is empty, and
/// `target` unchanged when `prefix` is not a literal prefix of it.
pub open spec fn spec_final_path(target: Seq<char>, prefix: Seq<char>) -> Seq<char> {
    if prefix.is_prefix_of(target) {
        let rest = target.subrange(prefix.len() as int, target.len() as int);
        if rest.len() == 0 {
            seq!['/']
        } else {
            rest
        }
    } else {
        target
    }
}

/// Literal substring-at-start test: does `s` start with `prefix`?
pub fn str_has_prefix(s: &str, prefix: &str) -> (r: bool)
    ensures
        r == prefix@.is_prefix_of(s@),
{
    let slen = s.unicode_len();
    let plen = prefix.unicode_len();
    if plen > slen {
        return false;
    }
    let mut i: usize = 0;
    while i < plen
        invariant
            plen as nat == prefix@.len(),
            slen as nat == s@.len(),
            plen <= slen,
            i <= plen,
            forall|j: int| 0 <= j < i ==> s@[j] == prefix@[j],
        decreases plen - i,
    {
        if s.get_char(i) != prefix.get_char(i) {
            proof {
                assert(!prefix@.is_prefix_of(s@)) by {
                    if prefix@.is_prefix_of(s@) {
                        assert(prefix@[i as int] == s@.subrange(0, plen as int)[i as int]);
                    }
                }
            }
            return false;
        }
        i += 1;
    }
    proof {
        assert(prefix@ =~= s@.subrange(0, plen as int));
    }
    true
}

/// Computes the forwarded path for a matched route: strips `prefix` from the
/// front of `target` and normalizes an empty remainder to `/`. When `prefix`
/// does not start `target`, the target passes through unchanged.
pub fn final_path_for(target: &str, prefix: &str) -> (r: String)
    ensures
        r@ == spec_final_path(target@, prefix@),
{
    if str_has_prefix(target, prefix) {
        let plen = prefix.unicode_len();
        let tlen = target.unicode_len();
        if plen == tlen {
            let root = "/".to_owned();
            proof {
                reveal_strlit("/");
                assert(root@ =~= seq!['/']);
            }
            root
        } else {
            let rest = target.substring_char(plen, tlen);
            rest.to_owned()
        }
    } else {
        target.to_owned()
    }
}

/// Builds the outbound request target: the upstream base followed by the
/// forwarded path, concatenated verbatim.
pub fn build_target(upstream: &str, final_path: &str) -> (r: String)
    ensures
        r@ == upstream@ + final_path@,
{
    let mut t = upstream.to_owned();
    t.append(final_path);
    t
}

} // verus!
