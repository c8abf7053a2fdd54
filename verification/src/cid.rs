//! Normalisation of IPFS sources into `/ipfs/{cid}` paths.

use vstd::prelude::*;
use vstd::string::*;
use crate::text::{has_prefix, starts_with};

verus! {

/// The path prefix that every IPFS content path carries.
pub open spec fn ipfs_path_prefix() -> Seq<char> {
    "/ipfs/"@
}

/// The URL scheme that on-chain metadata uses for IPFS sources.
pub open spec fn ipfs_url_scheme() -> Seq<char> {
    "ipfs://"@
}

/// The `/ipfs/{cid}` path for an IPFS source: a path that already has the
/// prefix stays as it is, an `ipfs://` URL loses its scheme, and anything else
/// is prefixed.
pub open spec fn spec_src_to_cid(src: Seq<char>) -> Seq<char> {
    if has_prefix(src, ipfs_path_prefix()) {
        src
    } else if has_prefix(src, ipfs_url_scheme()) {
        ipfs_path_prefix() + src.subrange(ipfs_url_scheme().len() as int, src.len() as int)
    } else {
        ipfs_path_prefix() + src
    }
}

/// Converts an `ipfs://{cid}` path to an `/ipfs/{cid}` path.
///
/// Paths already conforming to this format are unaffected. Everything else is
/// prefixed with `/ipfs/`.
pub fn src_to_cid(src: &str) -> (cid: String)
    ensures
        cid@ == spec_src_to_cid(src@),
{
    if starts_with(src, "/ipfs/") {
        return String::from_str(src);
    }
    let scheme = "ipfs://";
    let rest = if starts_with(src, scheme) {
        src.substring_char(scheme.unicode_len(), src.unicode_len())
    } else {
        src
    };
    let mut cid = String::from_str("/ipfs/");
    cid.append(rest);
    cid
}

/// Every path that `src_to_cid` produces carries the `/ipfs/` prefix.
pub proof fn lemma_cid_has_ipfs_prefix(src: Seq<char>)
    ensures
        has_prefix(spec_src_to_cid(src), ipfs_path_prefix()),
{
    let p = ipfs_path_prefix();
    if !has_prefix(src, p) {
        let rest = if has_prefix(src, ipfs_url_scheme()) {
            src.subrange(ipfs_url_scheme().len() as int, src.len() as int)
        } else {
            src
        };
        assert((p + rest).subrange(0, p.len() as int) =~= p);
    }
}

/// What `src_to_cid` gives, told by the start of its input: a path that
/// begins with `/ipfs/` is kept as it is; an `ipfs://` URL becomes `/ipfs/`
/// followed by the characters after the scheme, each kept as it is; and
/// anything else is kept whole behind `/ipfs/`.
pub proof fn lemma_src_to_cid_cases(src: Seq<char>)
    ensures
        src.len() >= 6 && src.subrange(0, 6) == "/ipfs/"@ ==> spec_src_to_cid(src) == src,
        src.len() >= 7 && src.subrange(0, 7) == "ipfs://"@ ==>
            spec_src_to_cid(src) == "/ipfs/"@ + src.subrange(7, src.len() as int),
        !(src.len() >= 6 && src.subrange(0, 6) == "/ipfs/"@) && !(src.len() >= 7 && src.subrange(0, 7) == "ipfs://"@)
            ==> spec_src_to_cid(src) == "/ipfs/"@ + src,
{
    reveal_strlit("/ipfs/");
    reveal_strlit("ipfs://");
    if src.len() >= 7 && src.subrange(0, 7) == "ipfs://"@ {
        assert(src.subrange(0, 7)[0] == 'i');
        assert(src[0] == 'i');
        if src.subrange(0, 6) == "/ipfs/"@ {
            assert(src.subrange(0, 6)[0] == '/');
        }
    }
}

/// Converting an already converted path changes nothing: `src_to_cid` is idempotent.
pub proof fn lemma_src_to_cid_idempotent(src: Seq<char>)
    ensures
        spec_src_to_cid(spec_src_to_cid(src)) == spec_src_to_cid(src),
{
    lemma_cid_has_ipfs_prefix(src);
}

} // verus!
