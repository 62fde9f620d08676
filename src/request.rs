use vstd::prelude::*;

use crate::error::{Error, Result};

verus! {

/// The next thing a one-shot exchange asks its driver to do.
#[derive(Clone, Copy, Debug, PartialEq, Eq, Structural)]
pub enum Action {
    /// Open the connection.
    Connect,
    /// Send the one message.
    Send,
    /// Receive the one reply.
    Receive,
    /// Close the connection.
    Close,
    /// Hand the outcome to the caller.
    Finish,
}

/// The decisions of a one-shot exchange: connect, send one message, receive
/// one reply if one is awaited, close. The first failure is the outcome, and
/// a connection that was opened is closed before the outcome is handed back,
/// on every path.
pub struct Exchange<R> {
    awaits_reply: bool,
    next: Action,
    reply: Option<R>,
    failure: Option<Error>,
    opened: Ghost<bool>,
    shut: Ghost<bool>,
}

impl<R> Exchange<R> {
    pub closed spec fn spec_awaits_reply(&self) -> bool {
        self.awaits_reply
    }

    pub closed spec fn spec_next(&self) -> Action {
        self.next
    }

    /// The reply received so far.
    pub closed spec fn spec_reply(&self) -> Option<R> {
        self.reply
    }

    /// The first failure so far.
    pub closed spec fn spec_failure(&self) -> Option<Error> {
        self.failure
    }

    /// A connection was opened.
    pub closed spec fn spec_opened(&self) -> bool {
        self.opened@
    }

    /// The opened connection was closed.
    pub closed spec fn spec_shut(&self) -> bool {
        self.shut@
    }

    /// The states an exchange passes through.
    pub open spec fn wf(&self) -> bool {
        &&& (self.spec_next() == Action::Connect ==> !self.spec_opened() && !self.spec_shut()
            && self.spec_failure() is None && self.spec_reply() is None)
        &&& (self.spec_next() == Action::Send ==> self.spec_opened() && !self.spec_shut()
            && self.spec_failure() is None && self.spec_reply() is None)
        &&& (self.spec_next() == Action::Receive ==> self.spec_opened() && !self.spec_shut()
            && self.spec_awaits_reply() && self.spec_failure() is None && self.spec_reply() is None)
        &&& (self.spec_next() == Action::Close ==> self.spec_opened() && !self.spec_shut())
        &&& (self.spec_next() == Action::Finish ==> (self.spec_opened() ==> self.spec_shut()))
        &&& (self.spec_next() == Action::Finish && !self.spec_opened() ==> self.spec_failure() is Some)
        &&& ((self.spec_next() == Action::Close || self.spec_next() == Action::Finish)
            && self.spec_failure() is None ==> (self.spec_reply() is Some <==> self.spec_awaits_reply()))
    }

    /// An exchange that has done nothing yet; `awaits_reply` is false for
    /// fire-and-forget.
    pub fn new(awaits_reply: bool) -> (r: Exchange<R>)
        ensures
            r.wf(),
            r.spec_next() == Action::Connect,
            r.spec_awaits_reply() == awaits_reply,
    {
        Exchange {
            awaits_reply,
            next: Action::Connect,
            reply: None,
            failure: None,
            opened: Ghost(false),
            shut: Ghost(false),
        }
    }

    /// What to do next.
    pub fn next_action(&self) -> (r: Action)
        ensures
            r == self.spec_next(),
    {
        self.next
    }

    /// Takes the result of opening the connection. A failed open leaves
    /// nothing to close.
    pub fn connected(&mut self, r: Result<()>)
        requires
            old(self).wf(),
            old(self).spec_next() == Action::Connect,
        ensures
            final(self).wf(),
            final(self).spec_awaits_reply() == old(self).spec_awaits_reply(),
            final(self).spec_reply() is None,
            r is Ok ==> final(self).spec_next() == Action::Send && final(self).spec_opened()
                && final(self).spec_failure() is None,
            r is Err ==> final(self).spec_next() == Action::Finish && !final(self).spec_opened()
                && final(self).spec_failure() == Some(r->Err_0),
    {
        match r {
            Ok(()) => {
                self.opened = Ghost(true);
                self.next = Action::Send;
            },
            Err(e) => {
                self.failure = Some(e);
                self.next = Action::Finish;
            },
        }
    }

    /// Takes the result of sending the message. A failed send goes straight
    /// to closing.
    pub fn sent(&mut self, r: Result<()>)
        requires
            old(self).wf(),
            old(self).spec_next() == Action::Send,
        ensures
            final(self).wf(),
            final(self).spec_awaits_reply() == old(self).spec_awaits_reply(),
            final(self).spec_opened() && !final(self).spec_shut(),
            final(self).spec_reply() is None,
            r is Ok ==> final(self).spec_failure() is None && final(self).spec_next() == (if old(
                self,
            ).spec_awaits_reply() {
                Action::Receive
            } else {
                Action::Close
            }),
            r is Err ==> final(self).spec_next() == Action::Close && final(self).spec_failure()
                == Some(r->Err_0),
    {
        match r {
            Ok(()) => {
                self.next = if self.awaits_reply {
                    Action::Receive
                } else {
                    Action::Close
                };
            },
            Err(e) => {
                self.failure = Some(e);
                self.next = Action::Close;
            },
        }
    }

    /// Takes the result of receiving the reply.
    pub fn received(&mut self, r: Result<R>)
        requires
            old(self).wf(),
            old(self).spec_next() == Action::Receive,
        ensures
            final(self).wf(),
            final(self).spec_awaits_reply() == old(self).spec_awaits_reply(),
            final(self).spec_next() == Action::Close,
            final(self).spec_opened() && !final(self).spec_shut(),
            r is Ok ==> final(self).spec_reply() == Some(r->Ok_0) && final(self).spec_failure() is None,
            r is Err ==> final(self).spec_reply() is None && final(self).spec_failure() == Some(
                r->Err_0,
            ),
    {
        match r {
            Ok(v) => {
                self.reply = Some(v);
            },
            Err(e) => {
                self.failure = Some(e);
            },
        }
        self.next = Action::Close;
    }

    /// Takes the result of closing the connection. A failure to close is the
    /// outcome only when nothing failed before it.
    pub fn closed(&mut self, r: Result<()>)
        requires
            old(self).wf(),
            old(self).spec_next() == Action::Close,
        ensures
            final(self).wf(),
            final(self).spec_awaits_reply() == old(self).spec_awaits_reply(),
            final(self).spec_next() == Action::Finish,
            final(self).spec_opened() && final(self).spec_shut(),
            final(self).spec_reply() == old(self).spec_reply(),
            old(self).spec_failure() is Some ==> final(self).spec_failure() == old(
                self,
            ).spec_failure(),
            old(self).spec_failure() is None ==> final(self).spec_failure() == match r {
                Ok(_) => None,
                Err(e) => Some(e),
            },
    {
        self.shut = Ghost(true);
        if self.failure.is_none() {
            match r {
                Ok(()) => {},
                Err(e) => {
                    self.failure = Some(e);
                },
            }
        }
        self.next = Action::Finish;
    }

    /// The outcome: the first failure, or else the reply (`None` when none
    /// was awaited). By then any connection that was opened has been closed.
    pub fn finish(self) -> (r: Result<Option<R>>)
        requires
            self.wf(),
            self.spec_next() == Action::Finish,
        ensures
            self.spec_opened() ==> self.spec_shut(),
            self.spec_failure() is Some <==> r is Err,
            r is Err ==> Some(r->Err_0) == self.spec_failure(),
            r is Ok ==> r->Ok_0 == self.spec_reply(),
            r is Ok ==> (r->Ok_0 is Some <==> self.spec_awaits_reply()),
    {
        match self.failure {
            Some(e) => Err(e),
            None => Ok(self.reply),
        }
    }
}

} // verus!
