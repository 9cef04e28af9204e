//! Resolve calendar event identifiers and build RSVP patches.
//!
//! The library turns a raw identifier token (a plain event ID, a
//! base64-encoded "id email" pair, or an invitation email) into a canonical
//! event identifier, picks the attendee whose response should change, and
//! builds the minimal patch to send to the remote calendar.

mod args;
mod email;
mod errors;
mod event;
mod format;
mod identifier;
mod status;
mod text;

pub use args::CliRequest;
pub use args::CliRequestView;
pub use args::ParseState;
pub use args::RunOpts;
pub use args::parse_args;
pub use args::parse_spec;
pub use args::req_view;
pub use email::MimePart;
pub use email::eid_from_email;
pub use email::extract_identifier;
pub use email::extract_spec;
pub use email::find_eid;
pub use email::find_eid_spec;
pub use email::mime_of;
pub use errors::Error;
pub use event::Attendee;
pub use event::Event;
pub use event::EventPatch;
pub use event::chosen_attendee;
pub use event::chosen_email;
pub use event::event_attendees;
pub use event::find_by_hint;
pub use event::find_self;
pub use event::lemma_rsvp_idempotent;
pub use event::resolve_patch;
pub use event::rsvp_patch;
pub use event::same_roster;
pub use format::attendee_line;
pub use format::attendee_line_spec;
pub use format::attendee_prefix;
pub use format::format_event;
pub use format::render_spec;
pub use format::time_texts_of;
pub use identifier::EventIdentifier;
pub use identifier::b64_decode_of;
pub use identifier::decode;
pub use identifier::decode_spec;
pub use identifier::encode_pair;
pub use identifier::split_fields;
pub use identifier::utf8_of;
pub use status::ResponseStatus;
pub use text::opt_str_view;
pub use text::str_eq;
