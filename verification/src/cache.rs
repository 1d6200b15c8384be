//! Content-addressed cache naming.  An artifact is identified solely by the
//! cache directory and a key derived from the request text; existence on the
//! filesystem (checked by the unverified shell) is the only state tracked.
use vstd::prelude::*;
use vstd::string::StringSliceAdditionalSpecFns;

verus! {

/// What the MD5 digest of a byte sequence renders to in lowercase hex.
pub uninterp spec fn md5_hex_of(bytes: Seq<u8>) -> Seq<char>;

/// Relies on `md5::compute` and the `LowerHex` rendering of `md5::Digest`:
/// the 16-byte digest of the input bytes, written as two lowercase hex digits
/// per digest byte, 32 characters in all, a function of the input bytes alone.
#[verifier::external_body]
fn md5_hex(text: &str) -> (r: String)
    ensures
        r@ == md5_hex_of(text.spec_bytes()),
        r@.len() == 32,
{
    format!("{:x}", md5::compute(text.as_bytes()))
}

/// The cache key of a request text: the hex digest of its bytes with the
/// fixed audio extension.
pub open spec fn cache_key_spec(bytes: Seq<u8>) -> Seq<char> {
    md5_hex_of(bytes) + ".wav"@
}

/// Generates the cache file name for a request text.
pub fn generate_cache_filename(text: &str) -> (r: String)
    ensures
        r@ == cache_key_spec(text.spec_bytes()),
{
    let mut out = md5_hex(text);
    out.append(".wav");
    proof {
        assert(out@ =~= cache_key_spec(text.spec_bytes()));
    }
    out
}

/// A directory path joined with a file name: the name alone when the
/// directory is empty (as a path join on an empty base leaves it), otherwise
/// separated by a slash unless the directory already ends in one.
pub open spec fn joined_path_spec(dir: Seq<char>, name: Seq<char>) -> Seq<char> {
    if dir.len() == 0 {
        name
    } else if dir[dir.len() - 1] == '/' {
        dir + name
    } else {
        dir + "/"@ + name
    }
}

/// Joins a cache directory with an artifact file name.
pub fn join_path(dir: &str, name: &str) -> (r: String)
    ensures
        r@ == joined_path_spec(dir@, name@),
{
    let n = dir.unicode_len();
    if n == 0 {
        return String::from_str(name);
    }
    let mut out = String::from_str(dir);
    if dir.get_char(n - 1) != '/' {
        out.append("/");
    }
    out.append(name);
    proof {
        assert(out@ =~= joined_path_spec(dir@, name@));
    }
    out
}

/// Where the artifact for a request text lives under a cache directory.  The
/// unverified shell checks existence at exactly this path; the path itself is
/// a pure function of the directory and the text's bytes.
pub fn cache_lookup_path(cache_dir: &str, text: &str) -> (r: String)
    ensures
        r@ == joined_path_spec(cache_dir@, cache_key_spec(text.spec_bytes())),
{
    let name = generate_cache_filename(text);
    join_path(cache_dir, name.as_str())
}

/// The cache key is a pure function of the request text's bytes alone: equal
/// byte sequences always yield the same key, across calls and across process
/// restarts.  Distinct texts share a key only on a digest collision.
pub proof fn lemma_cache_key_deterministic(b1: Seq<u8>, b2: Seq<u8>)
    requires
        b1 == b2,
    ensures
        cache_key_spec(b1) == cache_key_spec(b2),
{
}

} // verus!
