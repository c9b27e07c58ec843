//! Loader helpers: the skip-list test for known-unparseable documents and
//! the provenance label derived from a rule file's path.

use vstd::prelude::*;
use vstd::string::StringSliceAdditionalSpecFns;
use vstd::utf8::encode_utf8;

verus! {

/// Whether `needle` occurs contiguously inside `hay`.
pub open spec fn spec_is_substring(needle: Seq<u8>, hay: Seq<u8>) -> bool {
    exists|k: int|
        0 <= k && k + needle.len() <= hay.len() && #[trigger] hay.subrange(k, k + needle.len())
            == needle
}

fn bytes_match_at(hay: &[u8], needle: &[u8], k: usize) -> (r: bool)
    requires
        k + needle@.len() <= hay@.len(),
    ensures
        r == (hay@.subrange(k as int, k + needle@.len()) == needle@),
{
    let hlen = hay.len();
    let mut i: usize = 0;
    while i < needle.len()
        invariant
            0 <= i <= needle@.len(),
            k + needle@.len() <= hay@.len(),
            hlen == hay@.len(),
            forall|t: int| 0 <= t < i ==> hay@[k + t] == needle@[t],
        decreases needle@.len() - i,
    {
        if hay[k + i] != needle[i] {
            proof {
                assert(hay@.subrange(k as int, k + needle@.len())[i as int] != needle@[i as int]);
            }
            return false;
        }
        i += 1;
    }
    proof {
        assert(hay@.subrange(k as int, k + needle@.len()) =~= needle@);
    }
    true
}

fn bytes_contain(hay: &[u8], needle: &[u8]) -> (r: bool)
    ensures
        r == spec_is_substring(needle@, hay@),
{
    if needle.len() > hay.len() {
        return false;
    }
    if needle.len() == 0 {
        proof {
            assert(spec_is_substring(needle@, hay@)) by {
                assert(hay@.subrange(0, 0 + needle@.len() as int) =~= needle@);
            }
        }
        return true;
    }
    let last = hay.len() - needle.len();
    let mut k: usize = 0;
    while k <= last
        invariant
            needle@.len() >= 1,
            hay@.len() <= usize::MAX,
            last == hay@.len() - needle@.len(),
            0 <= k <= last + 1,
            forall|t: int|
                0 <= t < k ==> #[trigger] hay@.subrange(t, t + needle@.len()) != needle@,
        decreases last + 1 - k,
    {
        if bytes_match_at(hay, needle, k) {
            return true;
        }
        k += 1;
    }
    false
}

/// Whether the file path matches the exclusion set: true exactly when some
/// entry of the skip list occurs as a substring of the path (compared on the
/// UTF-8 bytes, as a path fragment). Such documents are tolerated as known
/// malformed and left out of the conversion.
pub fn is_skippable(path: &str, skip_list: &Vec<String>) -> (r: bool)
    ensures
        r == exists|i: int|
            0 <= i < skip_list.deep_view().len() && spec_is_substring(
                encode_utf8(skip_list.deep_view()[i]),
                encode_utf8(path@),
            ),
{
    let path_bytes = hay_bytes(path);
    let mut i: usize = 0;
    while i < skip_list.len()
        invariant
            0 <= i <= skip_list.deep_view().len(),
            path_bytes@ == encode_utf8(path@),
            forall|t: int|
                0 <= t < i ==> !spec_is_substring(
                    encode_utf8(skip_list.deep_view()[t]),
                    encode_utf8(path@),
                ),
        decreases skip_list.deep_view().len() - i,
    {
        let fragment = hay_bytes(skip_list[i].as_str());
        proof {
            assert(fragment@ == encode_utf8(skip_list.deep_view()[i as int]));
        }
        if bytes_contain(path_bytes, fragment) {
            return true;
        }
        i += 1;
    }
    false
}

fn hay_bytes(s: &str) -> (b: &[u8])
    ensures
        b@ == encode_utf8(s@),
{
    let b = s.as_bytes();
    proof {
        assert(b@ == s.spec_bytes());
    }
    b
}

/// The provenance label of a rule file: its path with the configured root
/// prefix stripped; a path that does not start with the prefix is kept
/// whole.
pub open spec fn spec_provenance(path: Seq<char>, base: Seq<char>) -> Seq<char> {
    if base.len() <= path.len() && path.subrange(0, base.len() as int) == base {
        path.skip(base.len() as int)
    } else {
        path
    }
}

/// Derives the provenance label for a rule file path by stripping the root
/// directory prefix; used as a converted entry's name when the source rule
/// supplies none.
pub fn provenance_label(path: &str, base: &str) -> (r: String)
    ensures
        r@ == spec_provenance(path@, base@),
{
    let plen = path.unicode_len();
    let blen = base.unicode_len();
    if blen > plen {
        return String::from_str(path);
    }
    let mut i: usize = 0;
    while i < blen
        invariant
            0 <= i <= blen,
            blen <= plen,
            blen == base@.len(),
            plen == path@.len(),
            forall|t: int| 0 <= t < i ==> path@[t] == base@[t],
        decreases blen - i,
    {
        if path.get_char(i) != base.get_char(i) {
            proof {
                assert(path@.subrange(0, base@.len() as int)[i as int] != base@[i as int]);
            }
            return String::from_str(path);
        }
        i += 1;
    }
    proof {
        assert(path@.subrange(0, base@.len() as int) =~= base@);
    }
    let rest = path.substring_char(blen, plen);
    proof {
        assert(rest@ =~= path@.skip(base@.len() as int));
    }
    String::from_str(rest)
}

} // verus!
