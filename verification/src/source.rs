use vstd::prelude::*;

use vstd::string::StringSliceAdditionalSpecFns;
use vstd::utf8::encode_utf8;

verus! {

/// How an input designator is acquired: a remote URL is downloaded into a
/// bounded sample, a local path is opened in place, and an absent
/// designator means standard input is copied whole.
#[derive(Debug, Clone, Copy, PartialEq, Eq, Structural)]
pub enum InputKind {
    Url,
    LocalPath,
    Stdin,
}

/// Whether a designator parses as a URL, exactly as the URL parser decides
/// it.
pub uninterp spec fn is_parseable_url(s: Seq<char>) -> bool;

/// Relies on url::Url::parse: whether the string parses as an absolute
/// URL.  The verdict is a function of the string alone.
#[verifier::external_body]
fn url_parses(s: &str) -> (r: bool)
    ensures
        r == is_parseable_url(s@),
{
    url::Url::parse(s).is_ok()
}

/// Whether a designator's first bytes read `http`.
pub open spec fn spec_has_http_prefix(b: Seq<u8>) -> bool {
    b.len() >= 4 && b[0] == 104u8 && b[1] == 116u8 && b[2] == 116u8 && b[3] == 112u8
}

pub fn has_http_prefix(s: &str) -> (r: bool)
    ensures
        r == spec_has_http_prefix(s.spec_bytes()),
{
    let b: &[u8] = s.as_bytes();
    b.len() >= 4 && b[0] == 104 && b[1] == 116 && b[2] == 116 && b[3] == 112
}

/// Classify an input designator.  An absent designator is standard input;
/// a string that parses as a URL and opens with `http` is remote; any
/// other string — including one that merely looks like a path but fails
/// URL parsing — is a local path, never an error.
pub fn classify_input(input: &Option<String>) -> (k: InputKind)
    ensures
        k == (match input {
            Option::None => InputKind::Stdin,
            Option::Some(s) => if is_parseable_url(s@) && spec_has_http_prefix(encode_utf8(s@)) {
                InputKind::Url
            } else {
                InputKind::LocalPath
            },
        }),
{
    match input {
        Option::None => InputKind::Stdin,
        Option::Some(s) => {
            let st: &str = s.as_str();
            if url_parses(st) && has_http_prefix(st) {
                InputKind::Url
            } else {
                InputKind::LocalPath
            }
        },
    }
}

} // verus!
