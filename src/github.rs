use vstd::prelude::*;
use vstd::string::*;
use vstd::utf8::{decode_utf8, valid_utf8};

use crate::license::{candidates_of, spdx_of, LicenseId, LicenseSource, NameParts};
use crate::text::{same_text, strings_view};

verus! {

/// What `regex` finds for groups one and two when `pattern` is matched against
/// `text`; `None` where the pattern does not compile, does not match, or one of
/// the groups takes no part in the match.
pub uninterp spec fn capture_pair(pattern: Seq<char>, text: Seq<char>) -> Option<(Seq<char>, Seq<char>)>;

/// The bytes that `base64` decodes from `text` under its MIME configuration
/// (standard alphabet, white space ignored); `None` where decoding fails.
pub uninterp spec fn mime_base64_of(text: Seq<char>) -> Option<Seq<u8>>;

/// Relies on `regex::Regex::new` and `regex::Regex::captures`: the texts of
/// groups one and two of the first match of `pattern` in `text`.
#[verifier::external_body]
fn regex_capture_pair(pattern: &str, text: &str) -> (r: Option<(String, String)>)
    ensures
        match capture_pair(pattern@, text@) {
            Some(p) => r matches Some(q) && q.0@ == p.0 && q.1@ == p.1,
            None => r is None,
        },
{
    let re = regex::Regex::new(pattern).ok()?;
    let caps = re.captures(text)?;
    Some((caps.get(1)?.as_str().to_string(), caps.get(2)?.as_str().to_string()))
}

/// Relies on `base64::decode_config` with `base64::MIME`: the decoded bytes.
#[verifier::external_body]
fn decode_mime_base64(text: &str) -> (r: Option<Vec<u8>>)
    ensures
        match mime_base64_of(text@) {
            Some(b) => r matches Some(v) && v@ == b,
            None => r is None,
        },
{
    base64::decode_config(text, base64::MIME).ok()
}

/// Relies on `String::from_utf8`: the text that the bytes encode, where they
/// are valid UTF-8.
#[verifier::external_body]
fn utf8_string(bytes: Vec<u8>) -> (r: Option<String>)
    ensures
        r is Some <==> valid_utf8(bytes@),
        r matches Some(s) ==> s@ == decode_utf8(bytes@),
{
    String::from_utf8(bytes).ok()
}

/// The shape of a repository URL on the hosting service, with the owner as
/// group one and the repository as group two.
pub open spec fn repo_url_pattern() -> Seq<char> {
    "^https://github.com/([^/]+)/([^/.]+)(.git)?/?$"@
}

/// The owner and the repository named by a repository URL, where the URL has
/// the recognised shape.
pub fn repo_coordinates(url: &str) -> (r: Option<(String, String)>)
    ensures
        match capture_pair(repo_url_pattern(), url@) {
            Some(p) => r matches Some(q) && q.0@ == p.0 && q.1@ == p.1,
            None => r is None,
        },
{
    regex_capture_pair("^https://github.com/([^/]+)/([^/.]+)(.git)?/?$", url)
}

/// The encodings in which the hosting service may deliver a document.
#[derive(Debug, Copy, Clone, PartialEq, Eq, Structural)]
pub enum Encoding {
    /// Base64, wrapped in lines as in MIME.
    Base64,
}

/// The encoding that a name denotes, if any is supported.
pub open spec fn encoding_named(name: Seq<char>) -> Option<Encoding> {
    if name == "base64"@ {
        Some(Encoding::Base64)
    } else {
        None
    }
}

/// The text that `content` decodes to under `enc`, if it decodes to valid
/// UTF-8.
pub open spec fn decoded_of(enc: Encoding, content: Seq<char>) -> Option<Seq<char>> {
    match enc {
        Encoding::Base64 => match mime_base64_of(content) {
            Some(b) => if valid_utf8(b) {
                Some(decode_utf8(b))
            } else {
                None
            },
            None => None,
        },
    }
}

impl Encoding {
    /// The encoding of the given name; only `base64` is supported.
    pub fn from_name(name: &str) -> (r: Option<Encoding>)
        ensures
            r == encoding_named(name@),
    {
        proof {
            reveal_strlit("base64");
        }
        let n = name.unicode_len();
        if n == 6 && name.get_char(0) == 'b' && name.get_char(1) == 'a' && name.get_char(2) == 's'
            && name.get_char(3) == 'e' && name.get_char(4) == '6' && name.get_char(5) == '4' {
            assert(name@ =~= "base64"@);
            Some(Encoding::Base64)
        } else {
            assert(name@ != "base64"@) by {
                if name@ == "base64"@ {
                    assert(name@[0] == 'b');
                }
            }
            None
        }
    }

    /// Decodes `input` to text; fails where it does not decode or the bytes
    /// are not UTF-8.
    pub fn decode(&self, input: &str) -> (r: Result<String, ()>)
        ensures
            match decoded_of(*self, input@) {
                Some(t) => r matches Ok(s) && s@ == t,
                None => r is Err,
            },
    {
        match self {
            Encoding::Base64 => match decode_mime_base64(input) {
                Some(bytes) => match utf8_string(bytes) {
                    Some(s) => Ok(s),
                    None => Err(()),
                },
                None => Err(()),
            },
        }
    }
}

/// The URL of the hosting service's license endpoint for a repository.
pub open spec fn api_url_of(owner: Seq<char>, repo: Seq<char>) -> Seq<char> {
    "https://api.github.com/repos/"@ + owner + "/"@ + repo + "/license"@
}

/// The URL of a raw file, named by its three parts, on the default branch of a
/// repository.
pub open spec fn raw_url_of(owner: Seq<char>, repo: Seq<char>, t: NameParts) -> Seq<char> {
    "https://raw.githubusercontent.com/"@ + owner + "/"@ + repo + "/master/"@ + t.0 + t.1 + t.2
}

/// The URL of the hosting service's license endpoint for a repository.
pub fn license_api_url(owner: &str, repo: &str) -> (r: String)
    ensures
        r@ == api_url_of(owner@, repo@),
{
    let mut r = String::from_str("https://api.github.com/repos/");
    r.append(owner);
    r.append("/");
    r.append(repo);
    r.append("/license");
    r
}

/// The URL of a raw file on the default branch of a repository.
pub fn raw_file_url(owner: &str, repo: &str, base: &str, suffix: &str, ext: &str) -> (r: String)
    ensures
        r@ == raw_url_of(owner@, repo@, (base@, suffix@, ext@)),
{
    let mut r = String::from_str("https://raw.githubusercontent.com/");
    r.append(owner);
    r.append("/");
    r.append(repo);
    r.append("/master/");
    r.append(base);
    r.append(suffix);
    r.append(ext);
    r
}

/// The raw URLs at which a license file of a repository is looked for, in the
/// order of the candidate file names.
pub fn raw_candidate_urls(owner: &str, repo: &str, chosen: LicenseId) -> (r: Vec<String>)
    ensures
        strings_view(r@) == candidates_of(chosen).map_values(
            |t: NameParts| raw_url_of(owner@, repo@, t),
        ),
{
    let names = chosen.guess_filenames();
    let ghost cs = candidates_of(chosen);
    let mut r: Vec<String> = Vec::new();
    let mut i: usize = 0;
    while i < names.len()
        invariant
            cs == candidates_of(chosen),
            names@.map_values(|t: (&'static str, &'static str, &'static str)| crate::license::parts_view(t)) == cs,
            i <= names@.len(),
            strings_view(r@) == cs.take(i as int).map_values(
                |t: NameParts| raw_url_of(owner@, repo@, t),
            ),
        decreases names.len() - i,
    {
        let (a, b, c) = names[i];
        let u = raw_file_url(owner, repo, a, b, c);
        let ghost prev = r@;
        let ghost uv = u@;
        r.push(u);
        assert(cs[i as int] == (a@, b@, c@));
        assert(strings_view(r@) =~= strings_view(prev).push(uv));
        assert(strings_view(r@) =~= cs.take(i as int + 1).map_values(
            |t: NameParts| raw_url_of(owner@, repo@, t),
        ));
        i = i + 1;
    }
    assert(cs.take(i as int) =~= cs);
    r
}

/// HTTP success: a status in the 2xx range.
pub open spec fn is_success(status: u16) -> bool {
    200 <= status < 300
}

/// The license document returned by the hosting service's license endpoint.
#[derive(Debug, Clone)]
pub struct LicenseDocument {
    pub download_url: String,
    pub content: String,
    pub encoding: String,
    pub spdx_id: String,
}

/// What an answer of the license endpoint amounts to.
#[derive(Debug, Clone)]
pub enum ApiVerdict {
    /// The document agrees with the chosen license: its source and text.
    Found(LicenseSource, String),
    /// The service refused the request (403).
    Forbidden,
    /// The repository has no license endpoint (404).
    Absent,
    /// Any other status that is not a success.
    UnexpectedStatus(u16),
    /// A successful answer whose body is not a license document.
    Malformed,
    /// The service reports another license than the chosen one.
    Mismatch { reported: String, chosen: LicenseId },
    /// The content is in an unknown encoding or does not decode to text.
    Undecodable,
}

/// `r` is the verdict on an answer of the license endpoint: refusals and
/// other failures first, then the agreement of the reported license with the
/// chosen one, then the decoding of the content.
pub open spec fn api_verdict_of(
    status: u16,
    document: Option<LicenseDocument>,
    chosen: LicenseId,
    r: ApiVerdict,
) -> bool {
    if status == 403 {
        r is Forbidden
    } else if status == 404 {
        r is Absent
    } else if !is_success(status) {
        r == ApiVerdict::UnexpectedStatus(status)
    } else {
        match document {
            None => r is Malformed,
            Some(d) => if d.spdx_id@ != spdx_of(chosen) {
                match r {
                    ApiVerdict::Mismatch { reported, chosen: c } => reported@ == d.spdx_id@ && c
                        == chosen,
                    _ => false,
                }
            } else {
                match encoding_named(d.encoding@) {
                    Some(e) => match decoded_of(e, d.content@) {
                        Some(t) => match r {
                            ApiVerdict::Found(LicenseSource::GitHubApi { url }, s) => url@
                                == d.download_url@ && s@ == t,
                            _ => false,
                        },
                        None => r is Undecodable,
                    },
                    None => r is Undecodable,
                }
            },
        }
    }
}

/// Judges an answer of the license endpoint: its status and, where the body
/// could be read as one, the license document it holds. The document is used
/// only where the service's license agrees with the chosen one.
pub fn judge_api_response(status: u16, document: Option<LicenseDocument>, chosen: LicenseId) -> (r: ApiVerdict)
    ensures
        api_verdict_of(status, document, chosen, r),
{
    if status == 403 {
        return ApiVerdict::Forbidden;
    }
    if status == 404 {
        return ApiVerdict::Absent;
    }
    if !(200 <= status && status < 300) {
        return ApiVerdict::UnexpectedStatus(status);
    }
    match document {
        None => ApiVerdict::Malformed,
        Some(d) => {
            if !same_text(chosen.spdx_id(), d.spdx_id.as_str()) {
                return ApiVerdict::Mismatch { reported: d.spdx_id, chosen };
            }
            match Encoding::from_name(d.encoding.as_str()) {
                None => ApiVerdict::Undecodable,
                Some(e) => match e.decode(d.content.as_str()) {
                    Ok(text) => ApiVerdict::Found(LicenseSource::GitHubApi { url: d.download_url }, text),
                    Err(()) => ApiVerdict::Undecodable,
                },
            }
        },
    }
}

/// A successful answer whose content decodes is taken exactly when the
/// license that the service reports is the chosen one; otherwise it is a
/// mismatch, which is no match and no error.
pub proof fn lemma_api_agreement(
    status: u16,
    d: LicenseDocument,
    chosen: LicenseId,
    r: ApiVerdict,
)
    requires
        is_success(status),
        api_verdict_of(status, Some(d), chosen, r),
        encoding_named(d.encoding@) is Some,
        decoded_of(encoding_named(d.encoding@)->0, d.content@) is Some,
    ensures
        r is Found <==> d.spdx_id@ == spdx_of(chosen),
        r is Found ==> r->Found_0 is GitHubApi,
        !(r is Found) ==> r is Mismatch,
{
}

/// What an answer for a raw file amounts to.
#[derive(Debug, Clone)]
pub enum RawVerdict {
    /// The file's text.
    Found(String),
    /// The service refused the request (403): no further raw file is tried.
    Forbidden,
    /// This file is not available; the next one may be.
    Miss,
}

/// Judges an answer for a raw file: its status and, where it could be read,
/// its body.
pub fn judge_raw_response(status: u16, body: Option<String>) -> (r: RawVerdict)
    ensures
        status == 403 ==> r is Forbidden,
        status != 403 && is_success(status) && body is Some ==> (r matches RawVerdict::Found(t) && t@ == body->0@),
        status != 403 && !(is_success(status) && body is Some) ==> r is Miss,
{
    if status == 403 {
        RawVerdict::Forbidden
    } else if 200 <= status && status < 300 {
        match body {
            Some(t) => RawVerdict::Found(t),
            None => RawVerdict::Miss,
        }
    } else {
        RawVerdict::Miss
    }
}

} // verus!
