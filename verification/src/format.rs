//! The event summary formatter: renders a fetched event for human
//! inspection — title, description, start and end time, the first joining
//! link, and the attendees with their response labels.

use vstd::prelude::*;
use vstd::string::*;

use crate::errors::Error;
use crate::event::Attendee;
use crate::event::Event;
use crate::text::str_eq;

verus! {

/// What chrono renders a timestamp as: `None` where the text is not a valid
/// RFC 3339 timestamp, otherwise the `"%a %b %e, %Y %H:%M"`, `"%H:%M"` and
/// `"%z"` renderings, with the local offset preserved.
pub uninterp spec fn time_texts_of(s: Seq<char>) -> Option<(Seq<char>, Seq<char>, Seq<char>)>;

/// Relies on chrono's `DateTime::parse_from_rfc3339` and `DateTime::format`:
/// a valid RFC 3339 timestamp is rendered as `"%a %b %e, %Y %H:%M"`,
/// `"%H:%M"` and `"%z"` (English day and month names, offset preserved), and
/// parsing fails exactly where the text is not RFC 3339. The renderings
/// depend on the timestamp text alone.
#[verifier::external_body]
fn format_timestamp(s: &str) -> (r: Option<(String, String, String)>)
    ensures
        r is Some <==> time_texts_of(s@) is Some,
        r matches Some(t) ==> time_texts_of(s@) == Some((t.0@, t.1@, t.2@)),
{
    match chrono::DateTime::parse_from_rfc3339(s) {
        Ok(t) => Some(
            (
                t.format("%a %b %e, %Y %H:%M").to_string(),
                t.format("%H:%M").to_string(),
                t.format("%z").to_string(),
            ),
        ),
        Err(_) => None,
    }
}

/// The column an attendee line starts with, by response status: the fixed
/// labels `""`, `"No"`, `"Maybe"` and `"Yes"` for the four recognized status
/// strings, padded as printed, and `None` for an unrecognized status.
pub open spec fn attendee_prefix(status: Seq<char>) -> Option<Seq<char>> {
    if status == "needsAction"@ {
        Option::Some("             "@)
    } else if status == "declined"@ {
        Option::Some("       No    "@)
    } else if status == "tentative"@ {
        Option::Some("       Maybe "@)
    } else if status == "accepted"@ {
        Option::Some("       Yes   "@)
    } else {
        Option::None
    }
}

/// The name an attendee is listed under: the display name, else the email.
pub open spec fn attendee_name(a: Attendee) -> Option<Seq<char>> {
    match a.display_name {
        Option::Some(d) => Option::Some(d@),
        Option::None => match a.email {
            Option::Some(e) => Option::Some(e@),
            Option::None => Option::None,
        },
    }
}

/// One attendee's summary line, or `None` where the attendee has no name and
/// no email, no response status, or an unrecognized status string — such an
/// attendee is silently skipped.
pub open spec fn attendee_line_spec(a: Attendee) -> Option<Seq<char>> {
    match attendee_name(a) {
        Option::None => Option::None,
        Option::Some(name) => match a.response_status {
            Option::None => Option::None,
            Option::Some(st) => match attendee_prefix(st@) {
                Option::None => Option::None,
                Option::Some(pre) => Option::Some(pre + name + "\n"@),
            },
        },
    }
}

/// The attendee lines, in order, lines of skipped attendees left out.
pub open spec fn who_lines(atts: Seq<Attendee>) -> Seq<char>
    decreases atts.len(),
{
    if atts.len() == 0 {
        Seq::empty()
    } else {
        (match attendee_line_spec(atts[0]) {
            Option::Some(l) => l,
            Option::None => Seq::<char>::empty(),
        }) + who_lines(atts.drop_first())
    }
}

/// The URI of the first conference entry point that has one.
pub open spec fn first_uri(uris: Seq<Option<String>>) -> Option<Seq<char>>
    decreases uris.len(),
{
    if uris.len() == 0 {
        Option::None
    } else {
        match uris[0] {
            Option::Some(u) => Option::Some(u@),
            Option::None => first_uri(uris.drop_first()),
        }
    }
}

/// The title block: the summary and a blank line, where the event has one.
pub open spec fn summary_part(e: Event) -> Seq<char> {
    match e.summary {
        Option::Some(s) => s@ + "\n\n"@,
        Option::None => Seq::empty(),
    }
}

/// The description line, where the event has one.
pub open spec fn description_part(e: Event) -> Seq<char> {
    match e.description {
        Option::Some(d) => d@ + "\n"@,
        Option::None => Seq::empty(),
    }
}

/// The `When` line: the start time, the end time's hours and minutes where
/// the event has an end, and the start's offset. `InvalidTimestamp` where a
/// present timestamp is not RFC 3339; empty where the event has no start.
pub open spec fn when_part(e: Event) -> Result<Seq<char>, Error> {
    match e.start_date_time {
        Option::None => Result::Ok(Seq::empty()),
        Option::Some(s) => match time_texts_of(s@) {
            Option::None => Result::Err(Error::InvalidTimestamp),
            Option::Some(st) => match e.end_date_time {
                Option::None => Result::Ok("When         "@ + st.0 + " "@ + st.2 + "\n"@),
                Option::Some(en) => match time_texts_of(en@) {
                    Option::None => Result::Err(Error::InvalidTimestamp),
                    Option::Some(et) => Result::Ok(
                        "When         "@ + st.0 + " – "@ + et.1 + " "@ + st.2 + "\n"@,
                    ),
                },
            },
        },
    }
}

/// The joining-info line, where some conference entry point has a URI.
pub open spec fn joining_part(e: Event) -> Seq<char> {
    match first_uri(e.entry_point_uris@) {
        Option::Some(u) => "Joining info "@ + u + "\n"@,
        Option::None => Seq::empty(),
    }
}

/// The attendee block: the `Who` header and one line per attendee that
/// renders, where the event has an attendee list at all.
pub open spec fn who_part(e: Event) -> Seq<char> {
    match e.attendees {
        Option::Some(atts) => "Who\n"@ + who_lines(atts@),
        Option::None => Seq::empty(),
    }
}

/// The whole rendering of an event, or `InvalidTimestamp` where a present
/// start or end timestamp is not RFC 3339.
pub open spec fn render_spec(e: Event) -> Result<Seq<char>, Error> {
    match when_part(e) {
        Result::Err(er) => Result::Err(er),
        Result::Ok(when) => Result::Ok(
            summary_part(e) + description_part(e) + when + joining_part(e) + who_part(e),
        ),
    }
}

/// Render one attendee's summary line: the response label column, then the
/// display name or, failing that, the email. `None` — no line at all — where
/// the attendee has no name and no email, no status, or an unrecognized
/// status string.
pub fn attendee_line(a: &Attendee) -> (r: Option<String>)
    ensures
        match r {
            Option::Some(l) => attendee_line_spec(*a) == Option::Some(l@),
            Option::None => attendee_line_spec(*a) is None,
        },
{
    let name: &String = match &a.display_name {
        Option::Some(d) => d,
        Option::None => match &a.email {
            Option::Some(e) => e,
            Option::None => {
                return Option::None;
            },
        },
    };
    match &a.response_status {
        Option::None => Option::None,
        Option::Some(st) => {
            let prefix: &str = if str_eq(st.as_str(), "needsAction") {
                "             "
            } else if str_eq(st.as_str(), "declined") {
                "       No    "
            } else if str_eq(st.as_str(), "tentative") {
                "       Maybe "
            } else if str_eq(st.as_str(), "accepted") {
                "       Yes   "
            } else {
                return Option::None;
            };
            let mut l = prefix.to_owned();
            l.append(name.as_str());
            l.append("\n");
            Option::Some(l)
        },
    }
}

/// The first conference entry point's URI, if any.
fn first_uri_exec(uris: &Vec<Option<String>>) -> (r: Option<&String>)
    ensures
        match r {
            Option::Some(u) => first_uri(uris@) == Option::Some(u@),
            Option::None => first_uri(uris@) is None,
        },
{
    let n = uris.len();
    let mut i: usize = 0;
    proof {
        assert(uris@.skip(0) =~= uris@);
    }
    while i < n
        invariant
            i <= n,
            n == uris@.len(),
            first_uri(uris@) == first_uri(uris@.skip(i as int)),
        decreases n - i,
    {
        proof {
            assert(uris@.skip(i as int)[0] == uris@[i as int]);
        }
        if let Option::Some(u) = &uris[i] {
            return Option::Some(u);
        }
        proof {
            assert(uris@.skip(i as int).drop_first() =~= uris@.skip(i as int + 1));
        }
        i += 1;
    }
    Option::None
}

/// Render a fetched event as its human-readable summary: title, description,
/// `When` line, first joining link, and the attendee list with its status
/// labels. Fails with `InvalidTimestamp` where a present start or end
/// timestamp is not valid RFC 3339.
#[verifier::rlimit(60)]
pub fn format_event(event: &Event) -> (r: Result<String, Error>)
    ensures
        match r {
            Result::Ok(s) => render_spec(*event) == Result::<Seq<char>, Error>::Ok(s@),
            Result::Err(e) => render_spec(*event) == Result::<Seq<char>, Error>::Err(e),
        },
{
    let mut out = String::new();
    if let Option::Some(summary) = &event.summary {
        out.append(summary.as_str());
        out.append("\n\n");
    }
    assert(out@ =~= summary_part(*event));
    if let Option::Some(description) = &event.description {
        out.append(description.as_str());
        out.append("\n");
    }
    assert(out@ =~= summary_part(*event) + description_part(*event));
    if let Option::Some(start) = &event.start_date_time {
        match format_timestamp(start.as_str()) {
            Option::None => {
                return Result::Err(Error::InvalidTimestamp);
            },
            Option::Some(st) => {
                out.append("When         ");
                out.append(st.0.as_str());
                if let Option::Some(end) = &event.end_date_time {
                    match format_timestamp(end.as_str()) {
                        Option::None => {
                            return Result::Err(Error::InvalidTimestamp);
                        },
                        Option::Some(et) => {
                            out.append(" – ");
                            out.append(et.1.as_str());
                        },
                    }
                }
                out.append(" ");
                out.append(st.2.as_str());
                out.append("\n");
            },
        }
    }
    assert(when_part(*event) is Ok);
    let ghost when = when_part(*event)->Ok_0;
    assert(out@ =~= summary_part(*event) + description_part(*event) + when);
    if let Option::Some(u) = first_uri_exec(&event.entry_point_uris) {
        out.append("Joining info ");
        out.append(u.as_str());
        out.append("\n");
    }
    let ghost base = summary_part(*event) + description_part(*event) + when + joining_part(
        *event,
    );
    assert(out@ =~= base);
    if let Option::Some(atts) = &event.attendees {
        out.append("Who\n");
        let n = atts.len();
        let mut i: usize = 0;
        proof {
            assert(atts@.skip(0) =~= atts@);
        }
        while i < n
            invariant
                i <= n,
                n == atts@.len(),
                out@ + who_lines(atts@.skip(i as int)) =~= base + "Who\n"@ + who_lines(atts@),
            decreases n - i,
        {
            proof {
                assert(atts@.skip(i as int)[0] == atts@[i as int]);
                assert(atts@.skip(i as int).drop_first() =~= atts@.skip(i as int + 1));
            }
            if let Option::Some(l) = attendee_line(&atts[i]) {
                out.append(l.as_str());
            }
            i += 1;
        }
        proof {
            assert(who_lines(atts@.skip(n as int)) =~= Seq::<char>::empty());
        }
    }
    assert(out@ =~= base + who_part(*event));
    Result::Ok(out)
}

} // verus!
