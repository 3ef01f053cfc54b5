//! The sandbox side: what the listener makes of each datagram that arrives
//! on the notification channel.

use crate::codec::{decode, decode_spec, encode, encode_spec};
use crate::text::{
    find_line_end, is_space, lemma_trimmed_edges, lemma_trimmed_fixed, line_len, string_of, to_chars,
    trim_bounds, trimmed,
};
use vstd::prelude::*;

verus! {

/// The entries of a payload: its lines, each trimmed, the empty ones left
/// out, in the order in which they stand.
pub open spec fn entries(payload: Seq<char>) -> Seq<Seq<char>>
    decreases payload.len(),
{
    if payload.len() == 0 {
        Seq::empty()
    } else {
        let n = line_len(payload);
        let head = trimmed(payload.take(n));
        let rest = if 0 <= n < payload.len() {
            entries(payload.skip(n + 1))
        } else {
            Seq::empty()
        };
        if head.len() > 0 {
            seq![head] + rest
        } else {
            rest
        }
    }
}

/// The status record that one entry leaves behind.
pub open spec fn record_of_entry(entry: Seq<char>) -> Seq<char> {
    encode_spec(decode_spec(entry))
}

/// The status records that a payload leaves behind, one for each entry, in
/// order.
pub open spec fn records_spec(payload: Seq<char>) -> Seq<Seq<char>> {
    Seq::new(entries(payload).len(), |i: int| record_of_entry(entries(payload)[i]))
}

/// The texts of a sequence of strings.
pub open spec fn texts(strings: Seq<String>) -> Seq<Seq<char>> {
    Seq::new(strings.len(), |i: int| strings[i]@)
}

/// The content of a record that held `initial` and was then overwritten
/// with each of `writes` in turn.
pub open spec fn overwritten(initial: Seq<char>, writes: Seq<Seq<char>>) -> Seq<char>
    decreases writes.len(),
{
    if writes.len() == 0 {
        initial
    } else {
        overwritten(writes.first(), writes.drop_first())
    }
}

/// The text that `String::from_utf8_lossy` makes of a run of bytes.
pub uninterp spec fn utf8_lossy(bytes: Seq<u8>) -> Seq<char>;

/// Turns received bytes into text with `String::from_utf8_lossy`, which
/// puts U+FFFD in place of what is not UTF-8. The contract only names the
/// text: it is a function of the bytes.
#[verifier::external_body]
fn lossy_text(bytes: &[u8]) -> (text: String)
    ensures
        text@ == utf8_lossy(bytes@),
{
    String::from_utf8_lossy(bytes).into_owned()
}

/// The size of the buffer into which the listener receives one datagram.
pub const RECEIVE_BUFFER_SIZE: usize = 4096;

/// How long the launcher waits for the listener before it looks for the
/// endpoint, in milliseconds.
pub const GRACE_MILLIS: u64 = 200;

/// Which of the two paths a process is on after the split.
#[derive(Debug, Clone, Copy, PartialEq, Eq)]
pub enum Role {
    /// The split failed: the proxy ends with a failure status.
    Failed,
    /// The process that receives the datagrams.
    Listener,
    /// The process that becomes the target command.
    Launcher,
}

/// The path that the process is on when the split returned `pid`: -1 says
/// that it failed, 0 marks the new process, which listens, and any other
/// number the one that goes on to launch the target.
pub fn role_after_split(pid: i32) -> (role: Role)
    ensures
        role == (if pid == -1 {
            Role::Failed
        } else if pid == 0 {
            Role::Listener
        } else {
            Role::Launcher
        }),
{
    if pid == -1 {
        Role::Failed
    } else if pid == 0 {
        Role::Listener
    } else {
        Role::Launcher
    }
}

/// Decodes each entry of a payload and returns the status records to
/// persist, in order: the caller overwrites the status record with each in
/// turn.
pub fn process_message(message: &str) -> (records: Vec<String>)
    ensures
        texts(records@) == records_spec(message@),
{
    let chars = to_chars(message);
    let n = chars.len();
    let mut records: Vec<String> = Vec::new();
    let ghost mut seen: Seq<Seq<char>> = Seq::empty();
    let mut start: usize = 0;
    assert(chars@.subrange(0, n as int) =~= chars@);
    while start < n
        invariant
            start <= n,
            n == chars@.len(),
            entries(chars@) == seen + entries(chars@.subrange(start as int, n as int)),
            records@.len() == seen.len(),
            forall|i: int| 0 <= i < seen.len() ==> (#[trigger] records@[i])@ == record_of_entry(seen[i]),
        decreases n - start,
    {
        let ghost rest = chars@.subrange(start as int, n as int);
        let end = find_line_end(&chars, start);
        let (a, b) = trim_bounds(&chars, start, end);
        let next: usize = if end < n {
            end + 1
        } else {
            n
        };
        proof {
            assert(rest.take(end - start) =~= chars@.subrange(start as int, end as int));
            if end < n {
                assert(rest.skip(end - start + 1) =~= chars@.subrange(next as int, n as int));
            } else {
                assert(chars@.subrange(next as int, n as int) =~= Seq::<char>::empty());
            }
        }
        if a < b {
            let entry = string_of(&chars, a, b);
            let notification = decode(entry.as_str());
            let record = encode(&notification);
            proof {
                let tail = entries(chars@.subrange(next as int, n as int));
                assert(seen + (seq![entry@] + tail) =~= seen.push(entry@) + tail);
                seen = seen.push(entry@);
            }
            records.push(record);
        }
        start = next;
    }
    assert(seen + Seq::<Seq<char>>::empty() =~= seen);
    assert(texts(records@) =~= records_spec(message@));
    records
}

/// What the listener does with one datagram: the bytes are read as text,
/// and the text as a payload.
pub fn process_datagram(bytes: &[u8]) -> (records: Vec<String>)
    ensures
        texts(records@) == records_spec(utf8_lossy(bytes@)),
{
    let message = lossy_text(bytes);
    process_message(message.as_str())
}

/// Every entry of a payload holds text, and neither begins nor ends with
/// whitespace.
pub proof fn lemma_entries_are_trimmed(payload: Seq<char>, i: int)
    requires
        0 <= i < entries(payload).len(),
    ensures
        entries(payload)[i].len() > 0,
        !is_space(entries(payload)[i].first()),
        !is_space(entries(payload)[i].last()),
        trimmed(entries(payload)[i]) == entries(payload)[i],
    decreases payload.len(),
{
    let n = line_len(payload);
    let head = trimmed(payload.take(n));
    lemma_trimmed_edges(payload.take(n));
    if head.len() > 0 && i == 0 {
        lemma_trimmed_fixed(head);
    } else if head.len() > 0 {
        lemma_entries_are_trimmed(payload.skip(n + 1), i - 1);
    } else {
        lemma_entries_are_trimmed(payload.skip(n + 1), i);
    }
}

/// Overwriting leaves the last write, or what was there where nothing was
/// written.
pub proof fn lemma_overwritten_is_last(initial: Seq<char>, writes: Seq<Seq<char>>)
    ensures
        overwritten(initial, writes) == if writes.len() == 0 {
            initial
        } else {
            writes.last()
        },
    decreases writes.len(),
{
    if writes.len() > 0 {
        lemma_overwritten_is_last(writes.first(), writes.drop_first());
    }
}

/// Of several entries in one payload the last one wins: once every record
/// of the payload has been persisted, the status record holds what the last
/// entry decodes to, and a payload without entries leaves it as it was.
pub proof fn lemma_last_entry_wins(initial: Seq<char>, payload: Seq<char>)
    ensures
        overwritten(initial, records_spec(payload)) == if entries(payload).len() == 0 {
            initial
        } else {
            encode_spec(decode_spec(entries(payload).last()))
        },
{
    lemma_overwritten_is_last(initial, records_spec(payload));
}

} // verus!
