//! Progress events and their wire framing.
//!
//! A generation session reports progress as a stream of tagged events: a
//! human-readable status marker, or one incremental piece of decoded output
//! text. On the wire each event is one JSON object, `{"status":"<text>"}`
//! or `{"status":"token","token":"<text>"}`. The JSON quoting and escaping
//! of the embedded text is delegated to an outside encoder; the framing
//! around it is verified.

use vstd::prelude::*;
use vstd::string::StringExecFns;

verus! {

/// One message from the generation loop to the client.
#[derive(Debug, PartialEq, Eq)]
pub enum GenerationEvent {
    /// A human-readable progress or error marker.
    Status(String),
    /// One incremental piece of decoded output text.
    Token(String),
}

/// Mathematical image of a [`GenerationEvent`].
pub enum EventView {
    Status(Seq<char>),
    Token(Seq<char>),
}

impl View for GenerationEvent {
    type V = EventView;

    open spec fn view(&self) -> EventView {
        match self {
            GenerationEvent::Status(m) => EventView::Status(m@),
            GenerationEvent::Token(t) => EventView::Token(t@),
        }
    }
}

/// The JSON text of a string value: a quoted, escaped copy of the
/// characters. Produced only by the outside encoder; nothing more is
/// assumed of it than that it depends on the characters alone.
pub uninterp spec fn json_string_lit(s: Seq<char>) -> Seq<char>;

/// Relies on `serde_json::to_string` on a string slice: it returns the JSON
/// string literal for exactly those characters, and serializing a string
/// into memory cannot fail.
#[verifier::external_body]
fn json_encode_str(s: &str) -> (r: String)
    ensures
        r@ == json_string_lit(s@),
{
    serde_json::to_string(s).unwrap()
}

/// The wire text of one event.
pub open spec fn spec_encode_event(e: EventView) -> Seq<char> {
    match e {
        EventView::Status(m) => "{\"status\":"@ + json_string_lit(m) + "}"@,
        EventView::Token(t) => "{\"status\":\"token\",\"token\":"@ + json_string_lit(t) + "}"@,
    }
}

/// Frame one event as its JSON wire text.
pub fn encode_event(e: &GenerationEvent) -> (r: String)
    ensures
        r@ == spec_encode_event(e@),
{
    match e {
        GenerationEvent::Status(m) => {
            let mut out: String = String::from_str("{\"status\":");
            let enc: String = json_encode_str(m.as_str());
            out.append(enc.as_str());
            out.append("}");
            assert(out@ =~= spec_encode_event(e@));
            out
        },
        GenerationEvent::Token(t) => {
            let mut out: String = String::from_str("{\"status\":\"token\",\"token\":");
            let enc: String = json_encode_str(t.as_str());
            out.append(enc.as_str());
            out.append("}");
            assert(out@ =~= spec_encode_event(e@));
            out
        },
    }
}

/// The wire text of the consolidated full-caption message, an optional
/// building block kept beside the incremental stream.
pub open spec fn spec_encode_caption(caption: Seq<char>) -> Seq<char> {
    "{\"caption\":"@ + json_string_lit(caption) + "}"@
}

/// Frame a consolidated caption as its JSON wire text.
pub fn encode_caption(caption: &str) -> (r: String)
    ensures
        r@ == spec_encode_caption(caption@),
{
    let mut out: String = String::from_str("{\"caption\":");
    let enc: String = json_encode_str(caption);
    out.append(enc.as_str());
    out.append("}");
    assert(out@ =~= spec_encode_caption(caption@));
    out
}

} // verus!
