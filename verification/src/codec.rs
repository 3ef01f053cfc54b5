//! The text protocol: lines received on the notification channel, and the
//! status record in which the latest of them is kept.

use crate::number::{decimal, parse_code, push_decimal, read_code};
use crate::text::{range_is, range_starts_with, string_of, to_chars};
use vstd::prelude::*;

verus! {

/// One notification of a service to its supervisor.
#[derive(Debug, Clone, PartialEq, Eq)]
pub enum Notification {
    /// The service has become ready.
    Ready,
    /// The service is shutting down.
    Stopping,
    /// A liveness heartbeat.
    Watchdog,
    /// Free-form status text.
    Status(String),
    /// A line that is none of the above, kept as it came.
    Message(String),
    /// A request to end the child with this exit code.
    Exit(i32),
}

/// The mathematical value of a `Notification`.
pub enum Note {
    Ready,
    Stopping,
    Watchdog,
    Status(Seq<char>),
    Message(Seq<char>),
    Exit(int),
}

impl View for Notification {
    type V = Note;

    open spec fn view(&self) -> Note {
        match self {
            Notification::Ready => Note::Ready,
            Notification::Stopping => Note::Stopping,
            Notification::Watchdog => Note::Watchdog,
            Notification::Status(text) => Note::Status(text@),
            Notification::Message(text) => Note::Message(text@),
            Notification::Exit(code) => Note::Exit(*code as int),
        }
    }
}

/// What a line of the notification channel means. The three sentinel lines
/// match as a whole; a line that begins with `STATUS=` is a status and keeps
/// that prefix; every other line is a message.
pub open spec fn decode_spec(line: Seq<char>) -> Note {
    if line == "READY=1"@ {
        Note::Ready
    } else if line == "STOPPING=1"@ {
        Note::Stopping
    } else if line == "WATCHDOG=1"@ {
        Note::Watchdog
    } else if "STATUS="@.is_prefix_of(line) {
        Note::Status(line)
    } else {
        Note::Message(line)
    }
}

/// The status record that stands for a notification.
pub open spec fn encode_spec(note: Note) -> Seq<char> {
    match note {
        Note::Ready => "READY"@,
        Note::Stopping => "STOPPING"@,
        Note::Watchdog => "WATCHDOG"@,
        Note::Status(text) => "STATUS:"@ + text,
        Note::Message(text) => "MESSAGE:"@ + text,
        Note::Exit(code) => "EXIT:"@ + decimal(code),
    }
}

/// The notification that a status record stands for, if any. A record that
/// is no notification, `STARTING` among them, and an `EXIT:` record without
/// a valid exit code give `None`.
pub open spec fn record_spec(record: Seq<char>) -> Option<Note> {
    if record == "READY"@ {
        Some(Note::Ready)
    } else if record == "STOPPING"@ {
        Some(Note::Stopping)
    } else if record == "WATCHDOG"@ {
        Some(Note::Watchdog)
    } else if "STATUS:"@.is_prefix_of(record) {
        Some(Note::Status(record.skip("STATUS:"@.len() as int)))
    } else if "MESSAGE:"@.is_prefix_of(record) {
        Some(Note::Message(record.skip("MESSAGE:"@.len() as int)))
    } else if "EXIT:"@.is_prefix_of(record) {
        match parse_code(record.skip("EXIT:"@.len() as int)) {
            Some(code) => Some(Note::Exit(code)),
            None => None,
        }
    } else {
        None
    }
}

/// Decodes one line of the notification channel. Every line decodes.
pub fn decode(raw_line: &str) -> (n: Notification)
    ensures
        n@ == decode_spec(raw_line@),
{
    let chars = to_chars(raw_line);
    let len = chars.len();
    assert(chars@.subrange(0, len as int) =~= raw_line@);
    if range_is(&chars, 0, len, &to_chars("READY=1")) {
        Notification::Ready
    } else if range_is(&chars, 0, len, &to_chars("STOPPING=1")) {
        Notification::Stopping
    } else if range_is(&chars, 0, len, &to_chars("WATCHDOG=1")) {
        Notification::Watchdog
    } else if range_starts_with(&chars, 0, len, &to_chars("STATUS=")) {
        Notification::Status(string_of(&chars, 0, len))
    } else {
        Notification::Message(string_of(&chars, 0, len))
    }
}

/// Writes a notification as a status record.
pub fn encode(notification: &Notification) -> (record: String)
    ensures
        record@ == encode_spec(notification@),
{
    match notification {
        Notification::Ready => "READY".to_owned(),
        Notification::Stopping => "STOPPING".to_owned(),
        Notification::Watchdog => "WATCHDOG".to_owned(),
        Notification::Status(text) => {
            let mut record = "STATUS:".to_owned();
            record.append(text.as_str());
            record
        },
        Notification::Message(text) => {
            let mut record = "MESSAGE:".to_owned();
            record.append(text.as_str());
            record
        },
        Notification::Exit(code) => {
            let mut record = "EXIT:".to_owned();
            push_decimal(&mut record, *code);
            record
        },
    }
}

/// Reads a status record back into the notification it stands for.
pub fn decode_record(record: &str) -> (r: Option<Notification>)
    ensures
        match r {
            Some(n) => record_spec(record@) == Some(n@),
            None => record_spec(record@) is None,
        },
{
    let chars = to_chars(record);
    let len = chars.len();
    assert(chars@.subrange(0, len as int) =~= record@);
    let status_tag = to_chars("STATUS:");
    let message_tag = to_chars("MESSAGE:");
    let exit_tag = to_chars("EXIT:");
    if range_is(&chars, 0, len, &to_chars("READY")) {
        Some(Notification::Ready)
    } else if range_is(&chars, 0, len, &to_chars("STOPPING")) {
        Some(Notification::Stopping)
    } else if range_is(&chars, 0, len, &to_chars("WATCHDOG")) {
        Some(Notification::Watchdog)
    } else if range_starts_with(&chars, 0, len, &status_tag) {
        Some(Notification::Status(string_of(&chars, status_tag.len(), len)))
    } else if range_starts_with(&chars, 0, len, &message_tag) {
        Some(Notification::Message(string_of(&chars, message_tag.len(), len)))
    } else if range_starts_with(&chars, 0, len, &exit_tag) {
        match read_code(&chars, exit_tag.len()) {
            Some(code) => Some(Notification::Exit(code)),
            None => None,
        }
    } else {
        None
    }
}

} // verus!
