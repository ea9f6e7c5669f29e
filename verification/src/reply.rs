//! The reply reader: the decisions of the line-reading loop, as one pure
//! step function from accumulated state and the next read to what to do.
//! The caller performs the reads and feeds each outcome in; a zero-byte
//! read is the primary signal of mid-session disconnection.

use vstd::prelude::*;
use crate::error::Error;
use crate::text::{str_eq, str_starts_with, trim_eol, trim_eol_spec};

verus! {

/// What one read from the connection produced: a raw line, or nothing at
/// all because the remote end closed the socket.
pub enum LineEvent {
    Line(String),
    Eof,
}

/// What to do after feeding one read to the reader.
pub enum ReplyStep {
    /// The reply is not finished: keep the lines gathered so far and read
    /// again.
    More(Vec<String>),
    /// The success terminator arrived: these are the reply's body lines.
    Done(Vec<String>),
    /// The reply cannot complete; any partial data is discarded.
    Failed(Error),
}

/// Feeds one read outcome to the reply reader. A line equal to the success
/// terminator finishes the reply; a line bearing the error prefix rejects
/// the command, carrying the server's text and no partial data; a zero-byte
/// read is a disconnect. Every other line, trimmed, joins the body.
pub fn reply_step(acc: Vec<String>, event: LineEvent) -> (r: ReplyStep)
    ensures
        event is Eof ==> (r matches ReplyStep::Failed(e) && e is Disconnected),
        event matches LineEvent::Line(l) ==> {
            let t = trim_eol_spec(l@);
            if t == "OK"@ {
                r matches ReplyStep::Done(b) && b.deep_view() == acc.deep_view()
            } else if "ACK "@.is_prefix_of(t) {
                r matches ReplyStep::Failed(e) && (e matches Error::CommandError { msg } && msg@
                    == t)
            } else {
                r matches ReplyStep::More(b) && b.deep_view() == acc.deep_view().push(t)
            }
        },
{
    match event {
        LineEvent::Eof => ReplyStep::Failed(Error::Disconnected),
        LineEvent::Line(l) => {
            let t = trim_eol(l.as_str());
            if str_eq(t.as_str(), "OK") {
                ReplyStep::Done(acc)
            } else if str_starts_with(t.as_str(), "ACK ") {
                ReplyStep::Failed(Error::CommandError { msg: t })
            } else {
                let mut acc = acc;
                let ghost acc0 = acc.deep_view();
                acc.push(t);
                proof {
                    assert(acc.deep_view() =~= acc0.push(trim_eol_spec(l@)));
                }
                ReplyStep::More(acc)
            }
        },
    }
}

/// Reads the server greeting: one line, trimmed, is the version text; a
/// zero-byte read before any line is a disconnect.
pub fn read_greeting(event: LineEvent) -> (r: Result<String, Error>)
    ensures
        event is Eof ==> (r matches Err(e) && e is Disconnected),
        event matches LineEvent::Line(l) ==> (r matches Ok(v) && v@ == trim_eol_spec(l@)),
{
    match event {
        LineEvent::Eof => Err(Error::Disconnected),
        LineEvent::Line(l) => Ok(trim_eol(l.as_str())),
    }
}

} // verus!
