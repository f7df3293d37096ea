//! Abbreviation of overly long `data:` URL file names for display.

use vstd::prelude::*;

use crate::text::find_char;
use crate::text::find_char_in;
use crate::text::lemma_find_char;
use crate::DATA_URL_ABBREV_THRESHOLD;

verus! {

/// Whether `url::Url::parse` accepts the string as an absolute URL.
pub uninterp spec fn url_parse_ok(s: Seq<char>) -> bool;

/// The scheme that `url::Url::scheme` reports for the parsed string.
pub uninterp spec fn url_scheme(s: Seq<char>) -> Seq<char>;

/// The path that `url::Url::path` reports for the parsed string.
pub uninterp spec fn url_path(s: Seq<char>) -> Seq<char>;

/// Relies on `url::Url::parse`, which succeeds exactly when the input parses
/// as an absolute URL, and on `url::Url::scheme` (the lower-cased scheme,
/// without the `:` delimiter) and `url::Url::path` (the URL's path) of the
/// parsed value; all three results depend on the input string alone.
#[verifier::external_body]
fn url_scheme_and_path(s: &str) -> (r: Option<(String, String)>)
    ensures
        r is Some <==> url_parse_ok(s@),
        r matches Some(p) ==> p.0@ == url_scheme(s@) && p.1@ == url_path(s@),
{
    match url::Url::parse(s) {
        Ok(u) => Some((u.scheme().to_string(), u.path().to_string())),
        Err(_) => None,
    }
}

/// The displayed form of a file name: a `data:` URL longer than the
/// threshold, whose path has a comma-separated payload of at least 40
/// characters, is shortened to the payload's first and last 20 characters
/// joined by `......`; every other name is returned unchanged.
pub open spec fn abbrev_file_name(s: Seq<char>) -> Seq<char> {
    if s.len() <= DATA_URL_ABBREV_THRESHOLD {
        s
    } else if !url_parse_ok(s) {
        s
    } else if url_scheme(s) != "data"@ {
        s
    } else {
        let path = url_path(s);
        match find_char(path, ',') {
            None => s,
            Some(k) => {
                let payload = path.subrange(k + 1, path.len() as int);
                if payload.len() < 40 {
                    s
                } else {
                    url_scheme(s) + ":"@ + path.subrange(0, k) + ","@ + payload.subrange(0, 20)
                        + "......"@ + payload.subrange(payload.len() - 20, payload.len() as int)
                }
            },
        }
    }
}

/// Shortens an excessively long `data:` URL file name for display; any
/// other file name comes back unchanged.
pub fn format_file_name(file_name: &str) -> (r: String)
    ensures
        r@ == abbrev_file_name(file_name@),
{
    let len = file_name.unicode_len();
    if len > DATA_URL_ABBREV_THRESHOLD {
        if let Some((scheme, path)) = url_scheme_and_path(file_name) {
            let data_lit = String::from_str("data");
            if scheme.eq(&data_lit) {
                if let Some(k) = find_char_in(path.as_str(), ',') {
                    proof {
                        lemma_find_char(path@, ',');
                    }
                    let plen = path.as_str().unicode_len();
                    let payload_len = plen - (k + 1);
                    if payload_len >= 40 {
                        let header = path.as_str().substring_char(0, k);
                        let prefix = path.as_str().substring_char(k + 1, k + 21);
                        let suffix = path.as_str().substring_char(plen - 20, plen);
                        let mut r = scheme;
                        r.append(":");
                        r.append(header);
                        r.append(",");
                        r.append(prefix);
                        r.append("......");
                        r.append(suffix);
                        proof {
                            let ghost p = path@;
                            let ghost payload = p.subrange(k + 1, p.len() as int);
                            assert(prefix@ =~= payload.subrange(0, 20));
                            assert(suffix@ =~= payload.subrange(
                                payload.len() - 20,
                                payload.len() as int,
                            ));
                            assert(r@ =~= abbrev_file_name(file_name@));
                        }
                        return r;
                    }
                }
            }
        }
    }
    file_name.to_owned()
}

/// Abbreviating a file name twice gives the same result as abbreviating it
/// once, provided the first pass left the name unchanged or produced one
/// within the display threshold (a shortened name whose header alone
/// overflows the threshold would be re-parsed, which nothing here states).
pub proof fn lemma_abbrev_idempotent(s: Seq<char>)
    requires
        abbrev_file_name(s) == s || abbrev_file_name(s).len() <= DATA_URL_ABBREV_THRESHOLD,
    ensures
        abbrev_file_name(abbrev_file_name(s)) == abbrev_file_name(s),
{
}

} // verus!
