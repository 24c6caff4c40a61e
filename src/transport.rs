use vstd::prelude::*;
use vstd::string::*;

use crate::text::{decode_line, lossy_text, trimmed_end};

verus! {

/// The bytes one receive call may hold at most.
pub const BUFFER_SIZE: usize = 1024;

/// The outcome of one read from the socket.
#[derive(Debug)]
pub enum ReadEvent {
    /// The bytes read; none means that the peer closed the stream.
    Bytes(Vec<u8>),
    /// The read timed out, or would have blocked.
    NoData,
    /// Any other read failure.
    Failed,
}

/// What a single receive call reports.
#[derive(Debug, PartialEq, Eq)]
pub enum Received {
    /// The decoded text of the bytes read.
    Text(String),
    /// Nothing: the peer closed, or nothing came before the timeout.
    Absent,
    /// The read failed; the caller hands on its error.
    Error,
}

/// The text of a line made of the bytes `b`.
pub open spec fn line_text(b: Seq<u8>) -> Seq<char> {
    trimmed_end(lossy_text(b))
}

/// Decides what a single receive call (a greeting, a response) reports.
pub fn recv_step(ev: ReadEvent) -> (r: Received)
    ensures
        match ev {
            ReadEvent::Bytes(b) => if b@.len() == 0 {
                r == Received::Absent
            } else {
                r matches Received::Text(s) && s@ == line_text(b@)
            },
            ReadEvent::NoData => r == Received::Absent,
            ReadEvent::Failed => r == Received::Error,
        },
{
    match ev {
        ReadEvent::Bytes(b) => {
            if b.len() == 0 {
                Received::Absent
            } else {
                Received::Text(decode_line(b.as_slice()))
            }
        },
        ReadEvent::NoData => Received::Absent,
        ReadEvent::Failed => Received::Error,
    }
}

/// One item that pulling on a line sequence gives.
#[derive(Debug, PartialEq, Eq)]
pub enum ListenItem {
    /// The decoded text of one read.
    Line(String),
    /// The peer closed: the sequence has ended.
    End,
    /// The read failed: the error is the sequence's last item.
    Error,
}

/// Whether a read ends a line sequence: anything but some bytes does.
pub open spec fn ends_sequence(ev: ReadEvent) -> bool {
    match ev {
        ReadEvent::Bytes(b) => b@.len() == 0,
        _ => true,
    }
}

/// Whether a read is an error for a line sequence.
pub open spec fn is_read_error(ev: ReadEvent) -> bool {
    !(ev is Bytes)
}

/// A line sequence over a connection: each pull is one read, and the
/// sequence is over once the peer closes or a read fails.
pub struct Listen {
    finished: bool,
}

impl Listen {
    pub closed spec fn spec_finished(&self) -> bool {
        self.finished
    }

    /// A sequence that no read has ended yet.
    pub fn new() -> (r: Listen)
        ensures
            !r.spec_finished(),
    {
        Listen { finished: false }
    }

    /// Whether the sequence is over: then no further read may be made for it.
    pub fn is_finished(&self) -> (r: bool)
        ensures
            r == self.spec_finished(),
    {
        self.finished
    }

    /// Takes the outcome of one read and gives the sequence's next item.
    pub fn next(&mut self, ev: ReadEvent) -> (item: ListenItem)
        requires
            !old(self).spec_finished(),
        ensures
            final(self).spec_finished() == ends_sequence(ev),
            match ev {
                ReadEvent::Bytes(b) => if b@.len() == 0 {
                    item == ListenItem::End
                } else {
                    item matches ListenItem::Line(s) && s@ == line_text(b@)
                },
                _ => item == ListenItem::Error,
            },
    {
        match ev {
            ReadEvent::Bytes(b) => {
                if b.len() == 0 {
                    self.finished = true;
                    ListenItem::End
                } else {
                    ListenItem::Line(decode_line(b.as_slice()))
                }
            },
            _ => {
                self.finished = true;
                ListenItem::Error
            },
        }
    }
}

/// The number of reads that a fresh line sequence makes over the reads
/// `evs`: it stops after the first that ends it.
pub open spec fn reads_made(evs: Seq<ReadEvent>) -> nat
    decreases evs.len(),
{
    if evs.len() == 0 {
        0
    } else if ends_sequence(evs[0]) {
        1
    } else {
        1 + reads_made(evs.drop_first())
    }
}

/// A read error after any number of lines is the sequence's last item: of the
/// reads `evs`, where the first `i` give lines and read `i` fails, exactly
/// `i + 1` are made, and the last of them is the error.
pub proof fn lemma_error_is_last(evs: Seq<ReadEvent>, i: nat)
    requires
        i < evs.len(),
        forall|j: int| 0 <= j < i ==> !ends_sequence(#[trigger] evs[j]),
        is_read_error(evs[i as int]),
    ensures
        reads_made(evs) == i + 1,
        ends_sequence(evs[i as int]),
    decreases i,
{
    if i > 0 {
        assert(!ends_sequence(evs[0]));
        let rest = evs.drop_first();
        assert forall|j: int| 0 <= j < i - 1 implies !ends_sequence(#[trigger] rest[j]) by {
            assert(rest[j] == evs[j + 1]);
        }
        assert(rest[i - 1] == evs[i as int]);
        lemma_error_is_last(rest, (i - 1) as nat);
    }
}

/// A command as it goes on the wire: ending in exactly the newline that the
/// caller wrote, or one that is added.
pub open spec fn command_line(cmd: Seq<char>) -> Seq<char> {
    if cmd.len() > 0 && cmd.last() == '\n' {
        cmd
    } else {
        cmd.push('\n')
    }
}

/// Adds the terminating newline to a command that lacks one.
pub fn normalize_command(cmd: &str) -> (r: String)
    ensures
        r@ == command_line(cmd@),
{
    let mut r = String::from_str(cmd);
    let n = cmd.unicode_len();
    if n > 0 && cmd.get_char(n - 1) == '\n' {
        r
    } else {
        proof {
            reveal_strlit("\n");
        }
        r.append("\n");
        assert(r@ =~= cmd@.push('\n'));
        r
    }
}

} // verus!
