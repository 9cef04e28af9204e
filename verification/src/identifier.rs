//! The identifier decoder: turns a raw token into a canonical event
//! identifier, optionally paired with an attendee email hint.
//!
//! A token is either a plain event ID (the common case) or the base64
//! encoding of `"{event_id} {email}"`. A token that is not valid base64
//! passes through unchanged; a valid base64 token is decoded, required to be
//! UTF-8, and split on spaces: the first field is the event ID and the
//! second, if present, an email hint.

use vstd::prelude::*;
use vstd::string::*;

use base64::Engine;

use crate::errors::Error;
use crate::text::opt_str_view;

verus! {

/// A resolved reference to a calendar event.
pub struct EventIdentifier {
    /// The opaque, calendar-system-specific event ID.
    pub event_id: String,
    /// An attendee email extracted alongside the ID, used to disambiguate
    /// the self-attendee when the remote "is-me" flag is unavailable.
    pub email_hint: Option<String>,
}

/// What `base64::decode` (standard alphabet, canonical padding) returns:
/// `None` where the input is not valid base64, otherwise the decoded bytes.
pub uninterp spec fn b64_decode_of(s: Seq<char>) -> Option<Seq<u8>>;

/// What `String::from_utf8` returns: `None` where the bytes are not valid
/// UTF-8, otherwise the decoded text.
pub uninterp spec fn utf8_of(b: Seq<u8>) -> Option<Seq<char>>;

/// Relies on `base64::engine::general_purpose::STANDARD.decode` (RFC 4648
/// standard alphabet, canonical padding required): `Ok` exactly on valid
/// base64 input, yielding the decoded bytes. The result depends on the
/// characters of the input alone.
#[verifier::external_body]
fn b64_decode(s: &str) -> (r: Option<Vec<u8>>)
    ensures
        r is Some <==> b64_decode_of(s@) is Some,
        r matches Some(v) ==> b64_decode_of(s@) == Some(v@),
{
    base64::engine::general_purpose::STANDARD.decode(s).ok()
}

/// Relies on `base64::engine::general_purpose::STANDARD.encode`: the returned
/// text is the canonical padded base64 of the argument's UTF-8 bytes, so
/// `STANDARD.decode` maps it back to exactly those bytes, and
/// `String::from_utf8` reads those bytes back as the argument itself (a
/// `str`'s bytes are valid UTF-8 and re-decode to it, as std documents).
#[verifier::external_body]
fn b64_encode(s: &str) -> (r: String)
    ensures
        b64_decode_of(r@) == Some(s.spec_bytes()),
        b64_decode_of(r@) matches Some(bs) ==> utf8_of(bs) == Some(s@),
{
    base64::engine::general_purpose::STANDARD.encode(s.as_bytes())
}

/// Relies on `String::from_utf8`: `Ok` exactly on valid UTF-8 input, yielding
/// the text those bytes spell.
#[verifier::external_body]
fn utf8_to_string(b: Vec<u8>) -> (r: Option<String>)
    ensures
        r is Some <==> utf8_of(b@) is Some,
        r matches Some(s) ==> utf8_of(b@) == Some(s@),
{
    String::from_utf8(b).ok()
}

/// The fields of `s` split on the space separator, exactly as `str::split`
/// with a single-space pattern yields them: always at least one field, with
/// empty fields kept.
pub open spec fn split_fields(s: Seq<char>) -> Seq<Seq<char>>
    decreases s.len(),
{
    if s.len() == 0 {
        seq![Seq::<char>::empty()]
    } else if s[0] == ' ' {
        seq![Seq::<char>::empty()] + split_fields(s.drop_first())
    } else {
        let rest = split_fields(s.drop_first());
        seq![seq![s[0]] + rest[0]] + rest.drop_first()
    }
}

/// Splitting always yields at least one field.
pub proof fn lemma_split_fields_nonempty(s: Seq<char>)
    ensures
        split_fields(s).len() >= 1,
    decreases s.len(),
{
    if s.len() == 0 {
    } else if s[0] == ' ' {
    } else {
        lemma_split_fields_nonempty(s.drop_first());
    }
}

/// A string without spaces is a single field.
pub proof fn lemma_split_fields_no_space(s: Seq<char>)
    requires
        !s.contains(' '),
    ensures
        split_fields(s) == seq![s],
    decreases s.len(),
{
    if s.len() == 0 {
        assert(split_fields(s) =~~= seq![s]);
    } else {
        assert(s[0] != ' ');
        assert(!s.drop_first().contains(' ')) by {
            assert forall|i: int| 0 <= i < s.drop_first().len() implies s.drop_first()[i]
                != ' ' by {
                assert(s.drop_first()[i] == s[i + 1]);
            }
        }
        lemma_split_fields_no_space(s.drop_first());
        assert(seq![s[0]] + s.drop_first() =~= s);
        assert(split_fields(s) =~= seq![s]);
    }
}

/// Splitting around a single space: the space-free prefix becomes the first
/// field, and the rest splits on its own.
pub proof fn lemma_split_fields_around_space(a: Seq<char>, b: Seq<char>)
    requires
        !a.contains(' '),
    ensures
        split_fields(a + seq![' '] + b) == seq![a] + split_fields(b),
    decreases a.len(),
{
    let s = a + seq![' '] + b;
    if a.len() == 0 {
        assert(s =~= seq![' '] + b);
        assert(s[0] == ' ');
        assert(s.drop_first() =~= b);
        assert(seq![Seq::<char>::empty()] + split_fields(b) =~~= seq![a] + split_fields(b));
    } else {
        assert(s[0] == a[0]);
        assert(a[0] != ' ');
        assert(!a.drop_first().contains(' ')) by {
            assert forall|i: int| 0 <= i < a.drop_first().len() implies a.drop_first()[i]
                != ' ' by {
                assert(a.drop_first()[i] == a[i + 1]);
            }
        }
        assert(s.drop_first() =~= a.drop_first() + seq![' '] + b);
        lemma_split_fields_around_space(a.drop_first(), b);
        let rest = split_fields(s.drop_first());
        assert(rest == seq![a.drop_first()] + split_fields(b));
        lemma_split_fields_nonempty(b);
        assert(rest[0] == a.drop_first());
        assert(seq![s[0]] + rest[0] =~= a);
        assert(rest.drop_first() =~= split_fields(b));
        assert(split_fields(s) =~= seq![a] + split_fields(b));
    }
}

/// What decoding a token yields: the token itself where it is not valid
/// base64; `DecodeError` where the payload is not UTF-8;
/// `MalformedIdentifier` where the payload is empty; otherwise the first
/// space-separated field as the event ID and the second, if present, as the
/// email hint.
pub open spec fn decode_spec(token: Seq<char>) -> Result<
    (Seq<char>, Option<Seq<char>>),
    Error,
> {
    match b64_decode_of(token) {
        Option::None => Result::Ok((token, Option::None)),
        Option::Some(bytes) => match utf8_of(bytes) {
            Option::None => Result::Err(Error::DecodeError),
            Option::Some(text) => if text.len() == 0 {
                Result::Err(Error::MalformedIdentifier)
            } else {
                let fields = split_fields(text);
                Result::Ok(
                    (
                        fields[0],
                        if fields.len() >= 2 {
                            Option::Some(fields[1])
                        } else {
                            Option::None
                        },
                    ),
                )
            },
        },
    }
}

/// The index of the first space in `s`, or its length if there is none.
fn find_space(s: &str) -> (i: usize)
    ensures
        i <= s@.len(),
        forall|k: int| 0 <= k < i ==> s@[k] != ' ',
        i < s@.len() ==> s@[i as int] == ' ',
{
    let n = s.unicode_len();
    let mut i: usize = 0;
    while i < n
        invariant
            i <= n,
            n == s@.len(),
            forall|k: int| 0 <= k < i ==> s@[k] != ' ',
        decreases n - i,
    {
        if s.get_char(i) == ' ' {
            return i;
        }
        i += 1;
    }
    i
}

/// The first field of `s` is its prefix up to the first space, and a second
/// field exists exactly where a space does.
proof fn lemma_fields_by_first_space(s: Seq<char>, i: int)
    requires
        0 <= i <= s.len(),
        forall|k: int| 0 <= k < i ==> s[k] != ' ',
        i < s.len() ==> s[i] == ' ',
    ensures
        split_fields(s)[0] == s.take(i),
        i == s.len() ==> split_fields(s).len() == 1,
        i < s.len() ==> split_fields(s).len() >= 2 && split_fields(s)[1] == split_fields(
            s.skip(i + 1),
        )[0],
{
    if i == s.len() {
        assert(!s.contains(' '));
        lemma_split_fields_no_space(s);
        assert(s.take(i) =~= s);
    } else {
        let a = s.take(i);
        let b = s.skip(i + 1);
        assert(!a.contains(' ')) by {
            assert forall|k: int| 0 <= k < a.len() implies a[k] != ' ' by {
                assert(a[k] == s[k]);
            }
        }
        assert(s =~= a + seq![' '] + b);
        lemma_split_fields_around_space(a, b);
        lemma_split_fields_nonempty(b);
    }
}

/// Decode a raw token into an event identifier.
///
/// A token that is not valid base64 passes through unchanged as the event
/// ID. A valid base64 token must decode to a non-empty UTF-8 payload, whose
/// first space-separated field is the event ID and whose second, if present,
/// is the email hint.
pub fn decode(token: &str) -> (r: Result<EventIdentifier, Error>)
    ensures
        match r {
            Result::Ok(id) => decode_spec(token@) == Result::<_, Error>::Ok(
                (id.event_id@, opt_str_view(id.email_hint)),
            ),
            Result::Err(e) => decode_spec(token@) == Result::<
                (Seq<char>, Option<Seq<char>>),
                _,
            >::Err(e),
        },
{
    match b64_decode(token) {
        Option::None => Result::Ok(
            EventIdentifier { event_id: token.to_owned(), email_hint: Option::None },
        ),
        Option::Some(bytes) => match utf8_to_string(bytes) {
            Option::None => Result::Err(Error::DecodeError),
            Option::Some(text) => {
                let t = text.as_str();
                let n = t.unicode_len();
                if n == 0 {
                    Result::Err(Error::MalformedIdentifier)
                } else {
                    let i = find_space(t);
                    proof {
                        lemma_fields_by_first_space(t@, i as int);
                    }
                    let event_id = t.substring_char(0, i).to_owned();
                    assert(event_id@ =~= t@.take(i as int));
                    if i < n {
                        let rest = t.substring_char(i + 1, n);
                        assert(rest@ =~= t@.skip(i + 1));
                        let j = find_space(rest);
                        proof {
                            lemma_fields_by_first_space(rest@, j as int);
                        }
                        let hint = rest.substring_char(0, j).to_owned();
                        assert(hint@ =~= rest@.take(j as int));
                        Result::Ok(
                            EventIdentifier { event_id, email_hint: Option::Some(hint) },
                        )
                    } else {
                        Result::Ok(EventIdentifier { event_id, email_hint: Option::None })
                    }
                }
            },
        },
    }
}

/// Encode an event ID and an attendee email as the composite base64 token
/// that [`decode`] resolves back to exactly this pair.
///
/// Decoding the returned token recovers `event_id` as the event ID and
/// `email` as the email hint, as long as neither contains a space.
pub fn encode_pair(event_id: &str, email: &str) -> (r: String)
    requires
        !event_id@.contains(' '),
        !email@.contains(' '),
    ensures
        decode_spec(r@) == Result::<_, Error>::Ok(
            (event_id@, Option::<Seq<char>>::Some(email@)),
        ),
{
    let mut pair = event_id.to_owned();
    pair.append(" ");
    pair.append(email);
    let r = b64_encode(pair.as_str());
    proof {
        reveal_strlit(" ");
        assert(" "@ =~= seq![' ']);
        assert(pair@ =~= event_id@ + seq![' '] + email@);
        lemma_split_fields_around_space(event_id@, email@);
        lemma_split_fields_no_space(email@);
        let fields = split_fields(pair@);
        assert(fields =~= seq![event_id@, email@]);
    }
    r
}

} // verus!
