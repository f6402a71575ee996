//! A session that reads messages one after another from a text.
//!
//! Reading stops at the first failure: once a frame is corrupt there is no
//! telling where the next one starts, so nothing more is read after the error
//! has been reported.
use vstd::prelude::*;

use crate::message::{frame_read, frame_spec, Message};
use crate::Error;

verus! {

/// Reads the messages of a session, in the order in which they stand.
pub struct Listener<'a> {
    input: &'a str,
    stopped: bool,
}

impl<'a> Listener<'a> {
    /// What is still to be read.
    pub closed spec fn spec_input(&self) -> Seq<char> {
        self.input@
    }

    /// Whether a read has failed, which ends the session.
    pub closed spec fn spec_stopped(&self) -> bool {
        self.stopped
    }

    /// A session over the text `input`.
    pub fn new(input: &'a str) -> (r: Listener<'a>)
        ensures
            r.spec_input() == input@,
            !r.spec_stopped(),
    {
        Listener { input, stopped: false }
    }

    /// Reads the next message, whatever the state of the session.
    pub fn next_msg(&mut self) -> (r: Result<Message, Error>)
        ensures
            final(self).spec_stopped() == old(self).spec_stopped(),
            frame_read(frame_spec(old(self).spec_input()), r, final(self).spec_input()),
    {
        Message::read_from(&mut self.input)
    }

    /// The next result of the session: `None` once a read has failed, and
    /// while there is nothing more to read; else the next message, or the
    /// error that ends the session.
    pub fn poll(&mut self) -> (r: Option<Result<Message, Error>>)
        ensures
            old(self).spec_stopped() ==> r is None && final(self).spec_stopped(),
            !old(self).spec_stopped() && old(self).spec_input().len() == 0 ==> r is None
                && !final(self).spec_stopped() && final(self).spec_input().len() == 0,
            !old(self).spec_stopped() && old(self).spec_input().len() > 0 ==> r is Some,
            r matches Some(Err(_)) ==> final(self).spec_stopped(),
            r matches Some(Ok(_)) ==> !final(self).spec_stopped(),
            r matches Some(x) ==> frame_read(
                frame_spec(old(self).spec_input()),
                x,
                final(self).spec_input(),
            ),
    {
        if self.stopped || self.input.is_empty() {
            return None;
        }
        let r = self.next_msg();
        if r.is_err() {
            self.stopped = true;
        }
        Some(r)
    }

    /// Whether a read has failed.
    pub fn is_stopped(&self) -> (r: bool)
        ensures
            r == self.spec_stopped(),
    {
        self.stopped
    }
}

/// The rule of a session over a stream whose frames are read one at a time:
/// each result is handed over in turn, until the first error, which is handed
/// over too and ends the session. The end of the stream ends it as well.
pub struct Session {
    stopped: bool,
}

impl Session {
    /// Whether the session has ended.
    pub closed spec fn spec_stopped(&self) -> bool {
        self.stopped
    }

    pub fn new() -> (r: Session)
        ensures
            !r.spec_stopped(),
    {
        Session { stopped: false }
    }

    /// Takes the outcome of reading the next frame, `None` when the stream
    /// has ended between two frames, and gives what is to be handed over.
    pub fn step(&mut self, outcome: Option<Result<Message, Error>>) -> (r: Option<
        Result<Message, Error>,
    >)
        ensures
            old(self).spec_stopped() ==> r is None,
            !old(self).spec_stopped() ==> r == outcome,
            final(self).spec_stopped() <==> (old(self).spec_stopped() || outcome is None
                || outcome matches Some(Err(_))),
    {
        if self.stopped {
            return None;
        }
        match outcome {
            None => {
                self.stopped = true;
                None
            },
            Some(Ok(m)) => Some(Ok(m)),
            Some(Err(e)) => {
                self.stopped = true;
                Some(Err(e))
            },
        }
    }

    /// Whether the session has ended.
    pub fn is_stopped(&self) -> (r: bool)
        ensures
            r == self.spec_stopped(),
    {
        self.stopped
    }
}

} // verus!
