//! Turning a request path into a file-system path under the served root.
use vstd::prelude::*;

verus! {

/// What percent-decoding a request path yields, as text.
pub uninterp spec fn url_decoded(s: Seq<char>) -> Seq<char>;

/// Relies on `percent_encoding::percent_decode_str(..).decode_utf8_lossy()`:
/// every `%` followed by two hex digits becomes that byte, the bytes are read
/// as UTF-8 with U+FFFD for invalid sequences; text without `%` comes back
/// unchanged (the crate then borrows the input bytes, which are valid UTF-8).
#[verifier::external_body]
fn percent_decode_lossy(s: &str) -> (r: String)
    ensures
        r@ == url_decoded(s@),
        !s@.contains('%') ==> r@ == s@,
{
    percent_encoding::percent_decode_str(s).decode_utf8_lossy().into_owned()
}

/// `s` with one leading `/` removed, if it has one.
pub open spec fn without_leading_slash(s: Seq<char>) -> Seq<char> {
    if s.len() > 0 && s[0] == '/' {
        s.drop_first()
    } else {
        s
    }
}

/// Joining `p` onto `base` the way a Unix path is extended: an absolute `p`
/// replaces `base`; otherwise a `/` is put between them unless `base` is empty
/// or already ends in one.
pub open spec fn joined(base: Seq<char>, p: Seq<char>) -> Seq<char> {
    if p.len() > 0 && p[0] == '/' {
        p
    } else if base.len() == 0 || base.last() == '/' {
        base + p
    } else {
        base + seq!['/'] + p
    }
}

/// The path that request path `uri` stands for under `root`. `..` segments
/// are kept as they are: nothing here confines the result to `root`.
pub open spec fn resolved(root: Seq<char>, uri: Seq<char>) -> Seq<char> {
    joined(root, url_decoded(without_leading_slash(uri)))
}

/// Extends path `base` with `p` (see `joined`).
pub fn join_path(base: &str, p: &str) -> (r: String)
    ensures
        r@ == joined(base@, p@),
{
    let plen = p.unicode_len();
    if plen > 0 && p.get_char(0) == '/' {
        return p.to_string();
    }
    let blen = base.unicode_len();
    let mut r = base.to_string();
    if blen > 0 && base.get_char(blen - 1) != '/' {
        r.append("/");
        proof {
            reveal_strlit("/");
        }
    }
    r.append(p);
    assert(r@ =~= joined(base@, p@));
    r
}

/// The file-system path for request path `uri` under `root`: one leading `/`
/// is dropped, the rest is percent-decoded (lossily) and joined onto `root`.
pub fn resolve(root: &str, uri: &str) -> (r: String)
    ensures
        r@ == resolved(root@, uri@),
{
    let n = uri.unicode_len();
    let rest: &str = if n > 0 && uri.get_char(0) == '/' {
        uri.substring_char(1, n)
    } else {
        uri
    };
    assert(rest@ =~= without_leading_slash(uri@));
    let decoded = percent_decode_lossy(rest);
    join_path(root, decoded.as_str())
}

} // verus!
