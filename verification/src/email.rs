//! The email extractor: finds the identifier token embedded in a calendar
//! invitation email.
//!
//! Extraction is restricted to the first `text/plain` leaf inside a
//! `multipart/alternative` part, whose body is matched against the pattern
//! `eid=([^&]+)&`: the capture at the leftmost match is the token. No other
//! part is searched.

use vstd::prelude::*;
use vstd::string::*;

use crate::errors::Error;
use crate::text::str_eq;

verus! {

/// One part of a parsed MIME message: its media type, its decoded body
/// (`None` where decoding failed), and its nested parts.
pub struct MimePart {
    /// The part's media type, such as `multipart/alternative` or `text/plain`.
    pub mimetype: String,
    /// The part's decoded body, or `None` where it could not be decoded.
    pub body: Option<String>,
    /// The parts nested inside this one.
    pub subparts: Vec<MimePart>,
}

/// The characters of `s`, collected once for linear-time scanning.
fn str_to_chars(s: &str) -> (r: Vec<char>)
    ensures
        r@ == s@,
{
    let mut v: Vec<char> = Vec::new();
    for c in it: s.chars()
        invariant
            it.seq() == s@,
            v@ == it.seq().take(it.index() as int),
    {
        v.push(c);
    }
    proof {
        assert(v@ =~= s@);
    }
    v
}

/// The index of the first `'&'` in `s` at or after `from`, or the length of
/// `s` if there is none.
pub open spec fn amp_index(s: Seq<char>, from: int) -> int
    decreases s.len() - from,
{
    if from >= s.len() {
        s.len() as int
    } else if s[from] == '&' {
        from
    } else {
        amp_index(s, from + 1)
    }
}

/// Whether the pattern `eid=([^&]+)&` matches `s` starting exactly at `i`:
/// the literal `eid=`, then at least one character other than `'&'`, then
/// `'&'`.
pub open spec fn eid_match_at(s: Seq<char>, i: int) -> bool {
    let m = amp_index(s, i + 4);
    &&& 0 <= i
    &&& i + 4 <= s.len()
    &&& s[i] == 'e'
    &&& s[i + 1] == 'i'
    &&& s[i + 2] == 'd'
    &&& s[i + 3] == '='
    &&& m > i + 4
    &&& m < s.len()
}

/// The capture of a match starting at `i`: everything between `eid=` and the
/// next `'&'`.
pub open spec fn capture_at(s: Seq<char>, i: int) -> Seq<char> {
    s.subrange(i + 4, amp_index(s, i + 4))
}

/// The capture at the leftmost match starting at or after `i`, if any.
pub open spec fn find_eid_from(s: Seq<char>, i: int) -> Option<Seq<char>>
    decreases s.len() - i,
{
    if i + 4 > s.len() {
        Option::None
    } else if eid_match_at(s, i) {
        Option::Some(capture_at(s, i))
    } else {
        find_eid_from(s, i + 1)
    }
}

/// The capture group of the pattern `eid=([^&]+)&` at its leftmost match in
/// `s`, or `None` where the pattern does not match.
pub open spec fn find_eid_spec(s: Seq<char>) -> Option<Seq<char>> {
    find_eid_from(s, 0)
}

proof fn lemma_amp_index_bounds(s: Seq<char>, from: int)
    requires
        0 <= from <= s.len(),
    ensures
        from <= amp_index(s, from) <= s.len(),
        forall|k: int| from <= k < amp_index(s, from) ==> s[k] != '&',
    decreases s.len() - from,
{
    if from < s.len() && s[from] != '&' {
        lemma_amp_index_bounds(s, from + 1);
    }
}

proof fn lemma_find_eid_from_capture(s: Seq<char>, i: int)
    requires
        0 <= i,
    ensures
        find_eid_from(s, i) matches Some(c) ==> c.len() > 0 && !c.contains('&'),
    decreases s.len() - i,
{
    if i + 4 > s.len() {
    } else if eid_match_at(s, i) {
        let m = amp_index(s, i + 4);
        lemma_amp_index_bounds(s, i + 4);
        let c = capture_at(s, i);
        assert(!c.contains('&')) by {
            assert forall|k: int| 0 <= k < c.len() implies c[k] != '&' by {
                assert(c[k] == s[i + 4 + k]);
            }
        }
    } else {
        lemma_find_eid_from_capture(s, i + 1);
    }
}

/// A capture of the pattern is never empty and never holds the terminator.
pub proof fn lemma_find_eid_capture(s: Seq<char>)
    ensures
        find_eid_spec(s) matches Some(c) ==> c.len() > 0 && !c.contains('&'),
{
    lemma_find_eid_from_capture(s, 0);
}

/// Match the pattern `eid=([^&]+)&` against `s` and return the capture group
/// of the leftmost match.
pub fn find_eid(s: &str) -> (r: Option<String>)
    ensures
        match r {
            Option::Some(c) => find_eid_spec(s@) == Option::Some(c@),
            Option::None => find_eid_spec(s@) is None,
        },
{
    let v = str_to_chars(s);
    let n = v.len();
    let mut i: usize = 0;
    while i < n
        invariant
            v@ == s@,
            n == s@.len(),
            i <= n,
            find_eid_from(s@, 0) == find_eid_from(s@, i as int),
        decreases n - i,
    {
        if n - i >= 4 && v[i] == 'e' && v[i + 1] == 'i' && v[i + 2] == 'd' && v[i + 3] == '=' {
            let mut j = i + 4;
            while j < n && v[j] != '&'
                invariant
                    v@ == s@,
                    n == s@.len(),
                    i + 4 <= j <= n,
                    amp_index(s@, i + 4) == amp_index(s@, j as int),
                decreases n - j,
            {
                j += 1;
            }
            proof {
                assert(amp_index(s@, j as int) == j as int);
            }
            if j > i + 4 && j < n {
                assert(eid_match_at(s@, i as int));
                let cap = s.substring_char(i + 4, j);
                proof {
                    assert(cap@ =~= capture_at(s@, i as int));
                }
                return Option::Some(cap.to_owned());
            }
            assert(!eid_match_at(s@, i as int));
        }
        proof {
            assert(find_eid_from(s@, i as int) == find_eid_from(s@, i as int + 1));
        }
        i += 1;
    }
    proof {
        assert(find_eid_from(s@, i as int) is None);
    }
    Option::None
}

/// The first part of `parts` whose media type is exactly `text/plain`.
pub open spec fn first_plain(parts: Seq<MimePart>) -> Option<MimePart>
    decreases parts.len(),
{
    if parts.len() == 0 {
        Option::None
    } else if parts[0].mimetype@ == "text/plain"@ {
        Option::Some(parts[0])
    } else {
        first_plain(parts.drop_first())
    }
}

/// The first `text/plain` leaf inside the first `multipart/alternative` part
/// of `parts` that has one.
pub open spec fn first_alternative_plain(parts: Seq<MimePart>) -> Option<MimePart>
    decreases parts.len(),
{
    if parts.len() == 0 {
        Option::None
    } else if parts[0].mimetype@ == "multipart/alternative"@ && first_plain(parts[0].subparts@)
        is Some {
        first_plain(parts[0].subparts@)
    } else {
        first_alternative_plain(parts.drop_first())
    }
}

/// What extracting from a parsed message yields: the `eid=([^&]+)&` capture
/// in the body of the message's first `multipart/alternative → text/plain`
/// part, and `NoMatchFound` where that part is missing, its body could not be
/// decoded, or the pattern does not match.
pub open spec fn extract_spec(root: MimePart) -> Result<Seq<char>, Error> {
    match first_alternative_plain(root.subparts@) {
        Option::None => Result::Err(Error::NoMatchFound),
        Option::Some(p) => match p.body {
            Option::None => Result::Err(Error::NoMatchFound),
            Option::Some(b) => match find_eid_spec(b@) {
                Option::None => Result::Err(Error::NoMatchFound),
                Option::Some(c) => Result::Ok(c),
            },
        },
    }
}

/// The index of the first `text/plain` part, if any.
fn find_plain(parts: &Vec<MimePart>) -> (r: Option<usize>)
    ensures
        match r {
            Option::Some(idx) => idx < parts@.len() && first_plain(parts@) == Option::Some(
                parts@[idx as int],
            ),
            Option::None => first_plain(parts@) is None,
        },
{
    let n = parts.len();
    let mut i: usize = 0;
    proof {
        assert(parts@.skip(0) =~= parts@);
    }
    while i < n
        invariant
            i <= n,
            n == parts@.len(),
            first_plain(parts@) == first_plain(parts@.skip(i as int)),
        decreases n - i,
    {
        proof {
            assert(parts@.skip(i as int)[0] == parts@[i as int]);
        }
        if str_eq(parts[i].mimetype.as_str(), "text/plain") {
            return Option::Some(i);
        }
        proof {
            assert(parts@.skip(i as int).drop_first() =~= parts@.skip(i as int + 1));
        }
        i += 1;
    }
    Option::None
}

/// Extract the identifier token from a parsed MIME tree.
///
/// Scans the message's top-level parts in order for a `multipart/alternative`
/// part holding a `text/plain` leaf, and matches that leaf's body against
/// `eid=([^&]+)&`. Fails with `NoMatchFound` where no such part exists, its
/// body could not be decoded, or the pattern does not match.
pub fn extract_identifier(root: &MimePart) -> (r: Result<String, Error>)
    ensures
        match r {
            Result::Ok(c) => extract_spec(*root) == Result::<Seq<char>, Error>::Ok(c@),
            Result::Err(e) => extract_spec(*root) == Result::<Seq<char>, Error>::Err(e),
        },
        r matches Ok(c) ==> c@.len() > 0 && !c@.contains('&'),
{
    let n = root.subparts.len();
    let mut i: usize = 0;
    proof {
        assert(root.subparts@.skip(0) =~= root.subparts@);
    }
    while i < n
        invariant
            i <= n,
            n == root.subparts@.len(),
            first_alternative_plain(root.subparts@) == first_alternative_plain(
                root.subparts@.skip(i as int),
            ),
        decreases n - i,
    {
        proof {
            assert(root.subparts@.skip(i as int)[0] == root.subparts@[i as int]);
        }
        let p = &root.subparts[i];
        if str_eq(p.mimetype.as_str(), "multipart/alternative") {
            if let Option::Some(idx) = find_plain(&p.subparts) {
                let plain = &p.subparts[idx];
                return match &plain.body {
                    Option::None => Result::Err(Error::NoMatchFound),
                    Option::Some(b) => match find_eid(b.as_str()) {
                        Option::None => Result::Err(Error::NoMatchFound),
                        Option::Some(c) => {
                            proof {
                                lemma_find_eid_capture(b@);
                            }
                            Result::Ok(c)
                        },
                    },
                };
            }
        }
        proof {
            assert(root.subparts@.skip(i as int).drop_first() =~= root.subparts@.skip(
                i as int + 1,
            ));
        }
        i += 1;
    }
    Result::Err(Error::NoMatchFound)
}

#[verifier::external_type_specification]
#[verifier::external_body]
pub struct ExParsedMail<'a>(mailparse::ParsedMail<'a>);

/// Relies on mailparse's `ParsedMail`: copies each part's `ctype.mimetype`,
/// its decoded body from `get_body` (`None` where decoding fails), and its
/// `subparts`, structure unchanged, into the library's own MIME tree.
#[verifier::external_body]
fn convert_mime(p: &mailparse::ParsedMail) -> (r: MimePart) {
    let mut subparts = Vec::new();
    for sp in &p.subparts {
        subparts.push(convert_mime(sp));
    }
    MimePart { mimetype: p.ctype.mimetype.clone(), body: p.get_body().ok(), subparts }
}

/// What `mailparse::parse_mail` yields for raw email bytes, as the library's
/// own MIME tree: `None` where the bytes are not a parseable message. The
/// result depends on the bytes alone.
pub uninterp spec fn mime_of(raw: Seq<u8>) -> Option<MimePart>;

/// Relies on `mailparse::parse_mail` to parse the MIME structure of raw email
/// bytes; `None` where the bytes are not a parseable message. The parse
/// depends on the bytes alone.
#[verifier::external_body]
fn parse_mime(raw: &[u8]) -> (r: Option<MimePart>)
    ensures
        r == mime_of(raw@),
{
    match mailparse::parse_mail(raw) {
        Ok(p) => Some(convert_mime(&p)),
        Err(_) => None,
    }
}

/// Extract the raw identifier token embedded in a calendar invitation email.
///
/// Parses the raw bytes as a MIME message and extracts as
/// [`extract_identifier`] does from the parsed tree. Every failure, a
/// message that does not parse included, reports `NoMatchFound`.
pub fn eid_from_email(raw: &[u8]) -> (r: Result<String, Error>)
    ensures
        match mime_of(raw@) {
            Option::None => r == Result::<String, Error>::Err(Error::NoMatchFound),
            Option::Some(root) => match r {
                Result::Ok(c) => extract_spec(root) == Result::<Seq<char>, Error>::Ok(c@),
                Result::Err(e) => extract_spec(root) == Result::<Seq<char>, Error>::Err(e),
            },
        },
        r matches Err(e) ==> e == Error::NoMatchFound,
        r matches Ok(c) ==> c@.len() > 0 && !c@.contains('&'),
{
    match parse_mime(raw) {
        Option::None => Result::Err(Error::NoMatchFound),
        Option::Some(root) => extract_identifier(&root),
    }
}

} // verus!
