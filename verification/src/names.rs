//! Deterministic, filesystem-safe names for the updater's files.
//!
//! Every character of the workflow's display name that is not an ASCII
//! letter or digit is replaced with `_`, and the result is combined with
//! the workflow's unique identifier into fixed name patterns, so that
//! every invocation of the short-lived host process finds the same
//! files.

use vstd::prelude::*;

verus! {

/// File that caches the status of the last background release check.
pub const STATUS_FILE_NAME: &'static str = "last_check_status_async.json";

/// Whether `c` is an ASCII letter or digit.
pub open spec fn is_ascii_alnum(c: char) -> bool {
    ||| ('a' <= c && c <= 'z')
    ||| ('A' <= c && c <= 'Z')
    ||| ('0' <= c && c <= '9')
}

/// `c` where it is an ASCII letter or digit, `_` everywhere else.
pub open spec fn sanitize_char(c: char) -> char {
    if is_ascii_alnum(c) {
        c
    } else {
        '_'
    }
}

/// The name with every character that is not an ASCII letter or digit
/// replaced by `_`.
pub open spec fn sanitized(s: Seq<char>) -> Seq<char> {
    s.map_values(|c: char| sanitize_char(c))
}

/// Relies on `String: FromIterator<char>`: collecting characters yields
/// the string of exactly those characters, in order.
#[verifier::external_body]
fn string_from_chars(v: &Vec<char>) -> (r: String)
    ensures
        r@ == v@,
{
    v.iter().collect()
}

/// Replaces every character that is not an ASCII letter or digit with
/// `_`, producing a filesystem-safe, deterministic name fragment.
pub fn sanitize_name(name: &str) -> (r: String)
    ensures
        r@ == sanitized(name@),
{
    let len = name.unicode_len();
    let mut out: Vec<char> = Vec::new();
    let mut i: usize = 0;
    while i < len
        invariant
            len == name@.len(),
            i <= len,
            out@ == sanitized(name@.take(i as int)),
        decreases len - i,
    {
        let c = name.get_char(i);
        let keep = ('a' <= c && c <= 'z') || ('A' <= c && c <= 'Z') || ('0' <= c && c <= '9');
        if keep {
            out.push(c);
        } else {
            out.push('_');
        }
        proof {
            assert(out@ =~= sanitized(name@.take(i + 1 as int)));
        }
        i = i + 1;
    }
    proof {
        assert(name@.take(len as int) =~= name@);
    }
    string_from_chars(&out)
}

/// The name of the updater's persisted-state file for the workflow with
/// unique identifier `uid` and display name `name`:
/// `<uid>-<sanitized name>-updater.json`.
pub fn updater_state_file_name(uid: &str, name: &str) -> (r: String)
    ensures
        r@ == uid@ + "-"@ + sanitized(name@) + "-updater.json"@,
{
    let sane = sanitize_name(name);
    let mut out = uid.to_owned();
    out.append("-");
    out.append(sane.as_str());
    out.append("-updater.json");
    out
}

/// The fixed name a downloaded release is saved under for the workflow
/// with display name `name`:
/// `latest_release_<sanitized name>.alfredworkflow`.
pub fn download_file_name(name: &str) -> (r: String)
    ensures
        r@ == "latest_release_"@ + sanitized(name@) + ".alfredworkflow"@,
{
    let sane = sanitize_name(name);
    let mut out = String::new();
    out.append("latest_release_");
    out.append(sane.as_str());
    out.append(".alfredworkflow");
    out
}

} // verus!
