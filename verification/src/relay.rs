//! The two sides together: what a line that enters on the sandbox side
//! makes the watcher do on the host side.

use crate::codec::{decode_spec, encode_spec, record_spec, Note};
use crate::number::lemma_decimal_reads_back;
use crate::proxy::{
    entries, lemma_entries_are_trimmed, lemma_last_entry_wins, overwritten, record_of_entry,
    records_spec,
};
use crate::text::{is_space, lemma_trimmed_behind_prefix, lemma_trimmed_fixed, trim_back, trimmed};
use crate::watcher::{observe_spec, ActionView, SessionView};
use vstd::prelude::*;

verus! {

/// Each sentinel line decodes to its own notification, and the status
/// record written for it is read back by the watcher as that notification.
pub proof fn lemma_sentinels_round_trip(line: Seq<char>)
    requires
        line == "READY=1"@ || line == "STOPPING=1"@ || line == "WATCHDOG=1"@,
    ensures
        line == "READY=1"@ ==> decode_spec(line) == Note::Ready,
        line == "STOPPING=1"@ ==> decode_spec(line) == Note::Stopping,
        line == "WATCHDOG=1"@ ==> decode_spec(line) == Note::Watchdog,
        record_spec(trimmed(encode_spec(decode_spec(line)))) == Some(decode_spec(line)),
{
    reveal_strlit("READY=1");
    reveal_strlit("STOPPING=1");
    reveal_strlit("WATCHDOG=1");
    reveal_strlit("READY");
    reveal_strlit("STOPPING");
    reveal_strlit("WATCHDOG");
    assert("STOPPING=1"@[0] != "WATCHDOG=1"@[0]);
    assert("STOPPING"@[0] != "WATCHDOG"@[0]);
    lemma_trimmed_fixed("READY"@);
    lemma_trimmed_fixed("STOPPING"@);
    lemma_trimmed_fixed("WATCHDOG"@);
}

/// Every notification is read back from the status record written for it.
pub proof fn lemma_record_round_trip(note: Note)
    requires
        note matches Note::Exit(code) ==> i32::MIN <= code <= i32::MAX,
    ensures
        record_spec(encode_spec(note)) == Some(note),
{
    reveal_strlit("READY");
    reveal_strlit("STOPPING");
    reveal_strlit("WATCHDOG");
    reveal_strlit("STATUS:");
    reveal_strlit("MESSAGE:");
    reveal_strlit("EXIT:");
    let record = encode_spec(note);
    match note {
        Note::Ready => {},
        Note::Stopping => {
            assert("STOPPING"@[0] == 'S');
        },
        Note::Watchdog => {
            assert("WATCHDOG"@[0] == 'W');
        },
        Note::Status(text) => {
            lemma_tagged_record("STATUS:"@, text);
            assert(record[2] == 'A');
        },
        Note::Message(text) => {
            lemma_tagged_record("MESSAGE:"@, text);
            assert(record[0] == 'M');
        },
        Note::Exit(code) => {
            lemma_tagged_record("EXIT:"@, crate::number::decimal(code));
            assert(record[0] == 'E');
            lemma_decimal_reads_back(code);
        },
    }
}

/// A record made of a tag and a text begins with the tag, and the text is
/// what follows it.
proof fn lemma_tagged_record(tag: Seq<char>, text: Seq<char>)
    ensures
        tag.is_prefix_of(tag + text),
        (tag + text).skip(tag.len() as int) == text,
        forall|i: int| 0 <= i < tag.len() ==> (tag + text)[i] == tag[i],
{
    assert((tag + text).subrange(0, tag.len() as int) =~= tag);
    assert((tag + text).skip(tag.len() as int) =~= text);
}

/// A line that is no sentinel and does not begin with `STATUS=` decodes to
/// a message that holds it as it is. Its record is the line behind
/// `MESSAGE:`, and the watcher that observes this record forwards nothing
/// to the sink: it logs the line where the record is new to it, and does
/// nothing otherwise.
pub proof fn lemma_other_text_is_message(s: SessionView, line: Seq<char>)
    requires
        line != "READY=1"@,
        line != "STOPPING=1"@,
        line != "WATCHDOG=1"@,
        !"STATUS="@.is_prefix_of(line),
    ensures
        decode_spec(line) == Note::Message(line),
        record_of_entry(line) == "MESSAGE:"@ + line,
        observe_spec(s, record_of_entry(line)).1 == if s.exit_code is Some || s.last_status
            == "MESSAGE:"@ + trim_back(line) {
            ActionView::Idle
        } else {
            ActionView::Log(trim_back(line))
        },
        observe_spec(s, record_of_entry(line)).0.ready_sent == s.ready_sent,
        observe_spec(s, record_of_entry(line)).0.exit_code == s.exit_code,
{
    reveal_strlit("MESSAGE:");
    lemma_trimmed_behind_prefix("MESSAGE:"@, line);
    lemma_record_round_trip(Note::Message(trim_back(line)));
}

/// A line that begins with `STATUS=` is persisted behind `STATUS:` as it
/// is. The watcher that observes this record forwards the text behind that
/// envelope, its own `STATUS=` included, where the record is new to it, and
/// does nothing otherwise. The text is the line without the whitespace at
/// its end: the line itself where it ends in none, as every entry of a
/// payload does.
pub proof fn lemma_status_is_forwarded(s: SessionView, line: Seq<char>)
    requires
        "STATUS="@.is_prefix_of(line),
    ensures
        decode_spec(line) == Note::Status(line),
        record_of_entry(line) == "STATUS:"@ + line,
        observe_spec(s, record_of_entry(line)).1 == if s.exit_code is Some || s.last_status
            == "STATUS:"@ + trim_back(line) {
            ActionView::Idle
        } else {
            ActionView::Forward(Note::Status(trim_back(line)))
        },
        !is_space(line.last()) ==> trim_back(line) == line,
{
    reveal_strlit("STATUS=");
    reveal_strlit("READY=1");
    reveal_strlit("STOPPING=1");
    reveal_strlit("WATCHDOG=1");
    reveal_strlit("STATUS:");
    assert(line.subrange(0, 7) == "STATUS="@);
    assert(line.subrange(0, 7)[0] == 'S' && line.subrange(0, 7)[2] == 'A');
    assert(line[0] == 'S' && line[2] == 'A');
    lemma_trimmed_behind_prefix("STATUS:"@, line);
    lemma_record_round_trip(Note::Status(trim_back(line)));
}

/// A payload whose last entry begins with `STATUS=` leaves a status record
/// from which the watcher forwards that entry, letter for letter, where the
/// record is new to it.
pub proof fn lemma_status_entry_reaches_sink(s: SessionView, initial: Seq<char>, payload: Seq<char>)
    requires
        entries(payload).len() > 0,
        "STATUS="@.is_prefix_of(entries(payload).last()),
    ensures
        ({
            let entry = entries(payload).last();
            let record = overwritten(initial, records_spec(payload));
            &&& record == "STATUS:"@ + entry
            &&& observe_spec(s, record).1 == if s.exit_code is Some || s.last_status == record {
                ActionView::Idle
            } else {
                ActionView::Forward(Note::Status(entry))
            }
        }),
{
    let entry = entries(payload).last();
    lemma_last_entry_wins(initial, payload);
    lemma_entries_are_trimmed(payload, entries(payload).len() - 1);
    lemma_status_is_forwarded(s, entry);
}

/// The record that the proxy writes before any notification has arrived
/// stands for none: the watcher that observes it sends nothing and goes on
/// waiting.
pub proof fn lemma_starting_is_no_notification(s: SessionView)
    requires
        s.exit_code is None,
        s.last_status != "STARTING"@,
    ensures
        record_spec("STARTING"@) is None,
        observe_spec(s, "STARTING"@).1 == ActionView::Unrecognized,
        observe_spec(s, "STARTING"@).0.ready_sent == s.ready_sent,
        observe_spec(s, "STARTING"@).0.exit_code is None,
{
    reveal_strlit("STARTING");
    reveal_strlit("READY");
    reveal_strlit("STOPPING");
    reveal_strlit("WATCHDOG");
    reveal_strlit("STATUS:");
    reveal_strlit("MESSAGE:");
    reveal_strlit("EXIT:");
    lemma_trimmed_fixed("STARTING"@);
    let r = "STARTING"@;
    assert(r[2] == 'A');
    assert("STOPPING"@[2] == 'O');
    assert(r.subrange(0, 7)[5] == 'I' && "STATUS:"@[5] == 'S');
    assert(r.subrange(0, 8)[0] == 'S' && "MESSAGE:"@[0] == 'M');
    assert(r.subrange(0, 5)[0] == 'S' && "EXIT:"@[0] == 'E');
}

/// The session after the sink has accepted a ready notification.
pub open spec fn delivered(s: SessionView) -> SessionView {
    SessionView { ready_sent: true, ..s }
}

/// A status record that reads `READY` makes the watcher send a ready
/// notification when it is new and none has been delivered yet. Observed
/// again right after, it sends nothing, whether the sink accepted the first
/// or not.
pub proof fn lemma_ready_observed_twice(s: SessionView, first: Seq<char>, second: Seq<char>)
    requires
        trimmed(first) == "READY"@,
        trimmed(second) == "READY"@,
    ensures
        observe_spec(s, first).1 == ActionView::Forward(Note::Ready) <==> (s.exit_code is None
            && !s.ready_sent && s.last_status != "READY"@),
        observe_spec(s, first).1 == ActionView::Forward(Note::Ready) || observe_spec(s, first).1
            == ActionView::Idle,
        observe_spec(observe_spec(s, first).0, second).1 == ActionView::Idle,
        observe_spec(delivered(observe_spec(s, first).0), second).1 == ActionView::Idle,
{
}

/// Once a ready notification has been delivered, no status record makes
/// the watcher send another.
pub proof fn lemma_ready_is_sent_once(s: SessionView, content: Seq<char>)
    requires
        s.ready_sent,
    ensures
        observe_spec(s, content).1 != ActionView::Forward(Note::Ready),
        observe_spec(s, content).0.ready_sent,
{
}

} // verus!
