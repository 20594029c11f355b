//! The read half's decision logic: decoding polled lines into messages and
//! keeping the source fused. Awaiting bytes from the socket is I/O and
//! lives in the hosting application, which reports each poll of the
//! underlying line stream as a [`RawLine`].

use vstd::prelude::*;

use crate::twitch::message::{
    classify, command_text, line_parses, opt_view, params_text, parse, Message,
};

verus! {

/// Failure of reading the next message.
#[derive(Debug)]
pub enum ReadError {
    /// The underlying byte read failed.
    Io,
    /// The line did not decode into a message; the raw text is kept for
    /// diagnostics.
    Parse(String),
    /// The stream reported end of input with no further lines pending.
    StreamClosed,
}

/// One poll of the underlying line stream.
#[derive(Debug)]
pub enum RawLine {
    /// A complete line arrived.
    Text(String),
    /// The byte read failed.
    Failed,
    /// The stream ended.
    End,
}

/// Whether the line source is exhausted after one more poll outcome:
/// exhaustion is absorbing, and reaching the end exhausts it.
pub open spec fn done_after(d: bool, raw: RawLine) -> bool {
    d || raw matches RawLine::End
}

/// Whether the line source is exhausted after a whole sequence of poll
/// outcomes.
pub open spec fn done_after_all(d: bool, raws: Seq<RawLine>) -> bool
    decreases raws.len(),
{
    if raws.len() == 0 {
        d
    } else {
        done_after_all(done_after(d, raws[0]), raws.subrange(1, raws.len() as int))
    }
}

/// Once the line source has reported completion, it stays exhausted no
/// matter what later polls would report: `message` keeps answering
/// `StreamClosed` and never needs another read.
pub proof fn lemma_closed_is_absorbing(raws: Seq<RawLine>)
    ensures
        done_after_all(true, raws),
    decreases raws.len(),
{
    if raws.len() > 0 {
        lemma_closed_is_absorbing(raws.subrange(1, raws.len() as int));
    }
}

/// State of the inbound line source: fused, so once it reports completion
/// every later call reports closure without another read.
pub struct LineSource {
    done: bool,
}

impl LineSource {
    /// Whether the source has reported completion.
    pub closed spec fn is_done(&self) -> bool {
        self.done
    }

    /// A fresh source for a newly split transport stream.
    pub fn new() -> (s: LineSource)
        ensures
            !s.is_done(),
    {
        LineSource { done: false }
    }

    /// Whether the source is exhausted; an exhausted source must not be
    /// polled again.
    pub fn is_closed(&self) -> (b: bool)
        ensures
            b == self.is_done(),
    {
        self.done
    }

    /// Decode one poll of the line stream into the next message.
    ///
    /// An exhausted source reports `StreamClosed` regardless of `raw`; a
    /// line is decoded by the classifier, preserving the raw text of a
    /// malformed line; a failed read reports `Io` without exhausting the
    /// source; the end of the stream reports `StreamClosed` and exhausts
    /// it.
    pub fn message(&mut self, raw: RawLine) -> (r: Result<Message, ReadError>)
        ensures
            final(self).is_done() == done_after(old(self).is_done(), raw),
            old(self).is_done() ==> r == Err::<Message, ReadError>(ReadError::StreamClosed),
            !old(self).is_done() ==> match raw {
                RawLine::Text(s) => {
                    &&& line_parses(s@) ==> (r matches Ok(m) && m.command == classify(
                        command_text(s@),
                    ) && opt_view(m.params) == params_text(s@))
                    &&& !line_parses(s@) ==> r == Err::<Message, ReadError>(ReadError::Parse(s))
                },
                RawLine::Failed => r == Err::<Message, ReadError>(ReadError::Io),
                RawLine::End => r == Err::<Message, ReadError>(ReadError::StreamClosed),
            },
    {
        if self.done {
            return Err(ReadError::StreamClosed);
        }
        match raw {
            RawLine::Text(s) => match parse(s) {
                Ok(m) => Ok(m),
                Err(raw_text) => Err(ReadError::Parse(raw_text)),
            },
            RawLine::Failed => Err(ReadError::Io),
            RawLine::End => {
                self.done = true;
                Err(ReadError::StreamClosed)
            },
        }
    }
}

} // verus!
