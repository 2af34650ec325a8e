//! Encoding of a log line as an event frame.
//!
//! The payload of a frame is the text of the line in debug quoting: between
//! double quotes, with its special characters escaped. The client receives
//! one event for each line.

use crate::framer::lossy_text;
use crate::framer::LogLine;
use rocket::response::stream::Event;
use vstd::prelude::*;

verus! {

/// The server-sent event of `rocket`. Nothing of what it holds can be read.
#[verifier::external_type_specification]
#[verifier::external_body]
pub struct ExEvent(rocket::response::stream::Event);

/// The event that `Event::data` makes of `payload`: an event with the payload
/// in its data field and its other fields unset.
pub uninterp spec fn data_event_of(payload: Seq<char>) -> Event;

/// Calls `Event::data`.
///
/// Trusted: the event is a function of the payload alone, named
/// `data_event_of`. Nothing else is claimed, since the event cannot be read.
#[verifier::external_body]
fn data_event(payload: String) -> (event: Event)
    ensures
        event == data_event_of(payload@),
{
    Event::data(payload)
}

/// What formatting `text` with `{:?}` gives: the text between double quotes,
/// with its special characters escaped.
pub uninterp spec fn debug_quoted(text: Seq<char>) -> Seq<char>;

/// Formats `text` with `{:?}`, that is with `Debug` for `str`.
///
/// Trusted: the result is a function of the text alone, named
/// `debug_quoted`.
#[verifier::external_body]
fn debug_quote(text: &str) -> (quoted: String)
    ensures
        quoted@ == debug_quoted(text@),
{
    format!("{:?}", text)
}

/// The payload of the frame that carries the line made of `line`.
pub open spec fn frame_of(line: Seq<u8>) -> Seq<char> {
    debug_quoted(lossy_text(line))
}

/// The payloads of the frames that carry `lines`, in the same order.
pub open spec fn frames_of(lines: Seq<Seq<u8>>) -> Seq<Seq<char>> {
    lines.map_values(|line: Seq<u8>| frame_of(line))
}

/// One event of the outbound stream: the payload that the client receives
/// for one line.
#[derive(Debug, PartialEq, Eq)]
pub struct EventFrame {
    data: String,
}

impl View for EventFrame {
    type V = Seq<char>;

    closed spec fn view(&self) -> Seq<char> {
        self.data@
    }
}

impl DeepView for EventFrame {
    type V = Seq<char>;

    open spec fn deep_view(&self) -> Seq<char> {
        self@
    }
}

impl Clone for EventFrame {
    fn clone(&self) -> (copy: EventFrame)
        ensures
            copy@ == self@,
    {
        EventFrame { data: self.data.clone() }
    }
}

impl EventFrame {
    /// The frame with the payload `data`.
    pub fn from_payload(data: String) -> (frame: EventFrame)
        ensures
            frame@ == data@,
    {
        EventFrame { data }
    }

    /// The payload.
    pub fn data(&self) -> (data: &str)
        ensures
            data@ == self@,
    {
        self.data.as_str()
    }

    /// Gives the payload away.
    pub fn into_data(self) -> (data: String)
        ensures
            data@ == self@,
    {
        self.data
    }

    /// The server-sent event that carries the frame: the data event that
    /// `Event::data` makes of the payload.
    pub fn into_event(self) -> (event: Event)
        ensures
            event == data_event_of(self@),
    {
        data_event(self.data)
    }
}

/// The frame for a line of the given text: the text in debug quoting.
pub fn encode_text(text: &str) -> (frame: EventFrame)
    ensures
        frame@ == debug_quoted(text@),
{
    EventFrame::from_payload(debug_quote(text))
}

/// The frame for `line`. Every line has one: bytes that are no valid text
/// appear in it as replacement characters.
pub fn encode(line: &LogLine) -> (frame: EventFrame)
    ensures
        frame@ == frame_of(line@),
{
    let text = line.text();
    encode_text(text.as_str())
}

/// Encoding keeps the lines apart and in order: the frames of two runs of
/// lines put together are the frames of the first run, then those of the
/// second.
pub proof fn lemma_frames_of_concat(first: Seq<Seq<u8>>, second: Seq<Seq<u8>>)
    ensures
        frames_of(first + second) == frames_of(first) + frames_of(second),
        frames_of(first).len() == first.len(),
{
}

} // verus!
