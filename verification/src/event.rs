//! The attendee resolver: given a fetched event's attendees, pick whose
//! response should change and build the minimal patch for the remote
//! calendar.

use vstd::prelude::*;
use vstd::string::*;

use crate::identifier::EventIdentifier;
use crate::status::ResponseStatus;
use crate::text::opt_str_view;
use crate::text::str_eq;

verus! {

/// One invited participant of an event, as the remote calendar reports it.
pub struct Attendee {
    /// The attendee's email address.
    pub email: Option<String>,
    /// The attendee's display name.
    pub display_name: Option<String>,
    /// Whether this attendee is the authenticated user.
    pub is_self: Option<bool>,
    /// The attendee's response status, one of the remote API's strings.
    pub response_status: Option<String>,
}

/// A fetched calendar event, reduced to what this library reads: texts,
/// RFC 3339 start and end timestamps, conference entry-point links, and the
/// attendee list.
pub struct Event {
    /// The event's title.
    pub summary: Option<String>,
    /// The event's description.
    pub description: Option<String>,
    /// The event's start, as an RFC 3339 timestamp.
    pub start_date_time: Option<String>,
    /// The event's end, as an RFC 3339 timestamp.
    pub end_date_time: Option<String>,
    /// The URI of each conference entry point, where it has one.
    pub entry_point_uris: Vec<Option<String>>,
    /// The invited participants, where the event has any.
    pub attendees: Option<Vec<Attendee>>,
}

/// The minimal event update sent to the remote API: exactly one attendee
/// record, holding the targeted email (if an attendee was found) and the new
/// response status.
pub struct EventPatch {
    /// The email of the attendee whose response changes, where one was found.
    pub email: Option<String>,
    /// The new response status, as the remote API's exact lowercase string.
    pub response_status: String,
}

/// The first attendee whose email exactly equals `hint` (case-sensitive).
pub open spec fn find_by_hint(atts: Seq<Attendee>, hint: Seq<char>) -> Option<Attendee>
    decreases atts.len(),
{
    if atts.len() == 0 {
        Option::None
    } else if atts[0].email matches Some(e) && e@ == hint {
        Option::Some(atts[0])
    } else {
        find_by_hint(atts.drop_first(), hint)
    }
}

/// The first attendee whose self flag is set.
pub open spec fn find_self(atts: Seq<Attendee>) -> Option<Attendee>
    decreases atts.len(),
{
    if atts.len() == 0 {
        Option::None
    } else if atts[0].is_self == Option::Some(true) {
        Option::Some(atts[0])
    } else {
        find_self(atts.drop_first())
    }
}

/// The attendee the patch targets: with a hint, the first attendee whose
/// email equals the hint, falling back to the first self-attendee where no
/// email matches; without a hint, the first self-attendee.
pub open spec fn chosen_attendee(atts: Seq<Attendee>, hint: Option<Seq<char>>) -> Option<
    Attendee,
> {
    match hint {
        Option::Some(h) => if find_by_hint(atts, h) is Some {
            find_by_hint(atts, h)
        } else {
            find_self(atts)
        },
        Option::None => find_self(atts),
    }
}

/// The email the patch carries: the chosen attendee's, or none where no
/// attendee was chosen.
pub open spec fn chosen_email(atts: Seq<Attendee>, hint: Option<Seq<char>>) -> Option<
    Seq<char>,
> {
    match chosen_attendee(atts, hint) {
        Option::Some(a) => opt_str_view(a.email),
        Option::None => Option::None,
    }
}

/// The index of the first attendee whose email equals `hint`, if any.
fn find_by_hint_exec(atts: &Vec<Attendee>, hint: &String) -> (r: Option<usize>)
    ensures
        match r {
            Option::Some(i) => i < atts@.len() && find_by_hint(atts@, hint@) == Option::Some(
                atts@[i as int],
            ),
            Option::None => find_by_hint(atts@, hint@) is None,
        },
{
    let n = atts.len();
    let mut i: usize = 0;
    proof {
        assert(atts@.skip(0) =~= atts@);
    }
    while i < n
        invariant
            i <= n,
            n == atts@.len(),
            find_by_hint(atts@, hint@) == find_by_hint(atts@.skip(i as int), hint@),
        decreases n - i,
    {
        proof {
            assert(atts@.skip(i as int)[0] == atts@[i as int]);
        }
        let matched = match &atts[i].email {
            Option::Some(e) => str_eq(e.as_str(), hint.as_str()),
            Option::None => false,
        };
        if matched {
            return Option::Some(i);
        }
        proof {
            assert(atts@.skip(i as int).drop_first() =~= atts@.skip(i as int + 1));
        }
        i += 1;
    }
    Option::None
}

/// The index of the first attendee whose self flag is set, if any.
fn find_self_exec(atts: &Vec<Attendee>) -> (r: Option<usize>)
    ensures
        match r {
            Option::Some(i) => i < atts@.len() && find_self(atts@) == Option::Some(
                atts@[i as int],
            ),
            Option::None => find_self(atts@) is None,
        },
{
    let n = atts.len();
    let mut i: usize = 0;
    proof {
        assert(atts@.skip(0) =~= atts@);
    }
    while i < n
        invariant
            i <= n,
            n == atts@.len(),
            find_self(atts@) == find_self(atts@.skip(i as int)),
        decreases n - i,
    {
        proof {
            assert(atts@.skip(i as int)[0] == atts@[i as int]);
        }
        let is_self = match &atts[i].is_self {
            Option::Some(b) => *b,
            Option::None => false,
        };
        if is_self {
            return Option::Some(i);
        }
        proof {
            assert(atts@.skip(i as int).drop_first() =~= atts@.skip(i as int + 1));
        }
        i += 1;
    }
    Option::None
}

/// Build the minimal patch for one RSVP.
///
/// Scans the attendees in order: with an email hint, the first attendee whose
/// email exactly equals the hint is targeted, falling back to the first
/// attendee whose self flag is set; without a hint, the first self-attendee.
/// Where no attendee matches, the patch still carries the status with no
/// email — the ambiguous no-match case is deliberately passed through to the
/// remote API rather than failing fast.
pub fn resolve_patch(attendees: &Vec<Attendee>, email_hint: &Option<String>, response:
    ResponseStatus) -> (r: EventPatch)
    ensures
        opt_str_view(r.email) == chosen_email(attendees@, opt_str_view(*email_hint)),
        r.response_status@ == response.api_str_spec(),
{
    let idx = match email_hint {
        Option::Some(h) => match find_by_hint_exec(attendees, h) {
            Option::Some(i) => Option::Some(i),
            Option::None => find_self_exec(attendees),
        },
        Option::None => find_self_exec(attendees),
    };
    let email = match idx {
        Option::Some(i) => match &attendees[i].email {
            Option::Some(e) => Option::Some(e.clone()),
            Option::None => Option::None,
        },
        Option::None => Option::None,
    };
    EventPatch { email, response_status: response.api_str().to_owned() }
}

/// The attendees of an event, an absent list counting as empty.
pub open spec fn event_attendees(e: Event) -> Seq<Attendee> {
    match e.attendees {
        Option::Some(v) => v@,
        Option::None => Seq::empty(),
    }
}

/// Build the patch for an RSVP to a fetched event: resolve against the
/// event's attendees and the identifier's email hint.
pub fn rsvp_patch(event: &Event, id: &EventIdentifier, response: ResponseStatus) -> (r:
    EventPatch)
    ensures
        opt_str_view(r.email) == chosen_email(
            event_attendees(*event),
            opt_str_view(id.email_hint),
        ),
        r.response_status@ == response.api_str_spec(),
{
    match &event.attendees {
        Option::Some(atts) => resolve_patch(atts, &id.email_hint, response),
        Option::None => {
            let empty: Vec<Attendee> = Vec::new();
            proof {
                assert(empty@ =~= event_attendees(*event));
            }
            resolve_patch(&empty, &id.email_hint, response)
        },
    }
}

/// Whether two attendee lists agree on every email and every self flag; the
/// response statuses and display names may differ.
pub open spec fn same_roster(a1: Seq<Attendee>, a2: Seq<Attendee>) -> bool {
    &&& a1.len() == a2.len()
    &&& forall|i: int|
        0 <= i < a1.len() ==> opt_str_view(#[trigger] a1[i].email) == opt_str_view(a2[i].email)
            && a1[i].is_self == a2[i].is_self
}

proof fn lemma_find_by_hint_same(a1: Seq<Attendee>, a2: Seq<Attendee>, hint: Seq<char>)
    requires
        same_roster(a1, a2),
    ensures
        find_by_hint(a1, hint) is Some <==> find_by_hint(a2, hint) is Some,
        find_by_hint(a1, hint) matches Some(x) ==> opt_str_view(x.email) == Option::Some(hint),
        find_by_hint(a2, hint) matches Some(x) ==> opt_str_view(x.email) == Option::Some(hint),
    decreases a1.len(),
{
    if a1.len() == 0 {
    } else {
        assert(opt_str_view(a1[0].email) == opt_str_view(a2[0].email));
        let m1 = a1[0].email matches Some(e) && e@ == hint;
        let m2 = a2[0].email matches Some(e) && e@ == hint;
        assert(m1 == m2);
        if !m1 {
            assert(same_roster(a1.drop_first(), a2.drop_first())) by {
                assert forall|i: int| 0 <= i < a1.drop_first().len() implies opt_str_view(
                    #[trigger] a1.drop_first()[i].email,
                ) == opt_str_view(a2.drop_first()[i].email) && a1.drop_first()[i].is_self
                    == a2.drop_first()[i].is_self by {
                    assert(a1.drop_first()[i] == a1[i + 1]);
                    assert(a2.drop_first()[i] == a2[i + 1]);
                    assert(opt_str_view(a1[i + 1].email) == opt_str_view(a2[i + 1].email));
                }
            }
            lemma_find_by_hint_same(a1.drop_first(), a2.drop_first(), hint);
        }
    }
}

proof fn lemma_find_self_same(a1: Seq<Attendee>, a2: Seq<Attendee>)
    requires
        same_roster(a1, a2),
    ensures
        find_self(a1) is Some <==> find_self(a2) is Some,
        find_self(a1) matches Some(x) ==> (find_self(a2) matches Some(y) && opt_str_view(
            x.email,
        ) == opt_str_view(y.email)),
    decreases a1.len(),
{
    if a1.len() == 0 {
    } else {
        assert(opt_str_view(a1[0].email) == opt_str_view(a2[0].email));
        assert(a1[0].is_self == a2[0].is_self);
        if a1[0].is_self != Option::Some(true) {
            assert(same_roster(a1.drop_first(), a2.drop_first())) by {
                assert forall|i: int| 0 <= i < a1.drop_first().len() implies opt_str_view(
                    #[trigger] a1.drop_first()[i].email,
                ) == opt_str_view(a2.drop_first()[i].email) && a1.drop_first()[i].is_self
                    == a2.drop_first()[i].is_self by {
                    assert(a1.drop_first()[i] == a1[i + 1]);
                    assert(a2.drop_first()[i] == a2[i + 1]);
                    assert(opt_str_view(a1[i + 1].email) == opt_str_view(a2[i + 1].email));
                }
            }
            lemma_find_self_same(a1.drop_first(), a2.drop_first());
        }
    }
}

/// Applying the same RSVP response twice to the same event builds the same
/// patch both times: resolution reads only the attendees' emails and self
/// flags, so the response statuses that a previous patch changed — and
/// nothing else a patch can change — cannot move the target. There is no
/// accumulation of state across calls.
pub proof fn lemma_rsvp_idempotent(a1: Seq<Attendee>, a2: Seq<Attendee>, hint: Option<
    Seq<char>,
>)
    requires
        same_roster(a1, a2),
    ensures
        chosen_email(a1, hint) == chosen_email(a2, hint),
{
    match hint {
        Option::Some(h) => {
            lemma_find_by_hint_same(a1, a2, h);
            if find_by_hint(a1, h) is None {
                lemma_find_self_same(a1, a2);
            }
        },
        Option::None => {
            lemma_find_self_same(a1, a2);
        },
    }
}

} // verus!
