use vstd::prelude::*;

use std::time::Duration;

use crate::error::{Error, Result};

verus! {

/// The deadlines of one connection; `None` waits without bound.
#[derive(Clone, Copy)]
pub struct Timeouts {
    pub connect: Option<Duration>,
    pub send: Option<Duration>,
    pub receive: Option<Duration>,
}

impl Timeouts {
    /// No deadline at all.
    pub open spec fn spec_none() -> Timeouts {
        Timeouts { connect: None, send: None, receive: None }
    }

    /// No deadline at all.
    pub fn none() -> (r: Timeouts)
        ensures
            r == Timeouts::spec_none(),
    {
        Timeouts { connect: None, send: None, receive: None }
    }
}

/// What names the peer of a connection.
#[derive(Clone, Copy, Debug, PartialEq, Eq, Structural)]
pub enum TargetKind {
    /// A network address.
    Address,
    /// A local socket's filesystem path.
    Path,
}

/// The configuration error for a builder that was given no target.
pub open spec fn missing_target_text(kind: TargetKind) -> Seq<char> {
    match kind {
        TargetKind::Address => "Address not set"@,
        TargetKind::Path => "Path not set"@,
    }
}

/// A validated request to connect: the target and its deadlines.
pub struct ConnectConfig<A> {
    pub target: A,
    pub timeouts: Timeouts,
}

/// The target a builder was given, or the configuration error when it was
/// given none. No connection is attempted either way.
pub fn require_target<A>(target: Option<A>, kind: TargetKind) -> (r: Result<A>)
    ensures
        target is Some <==> r is Ok,
        r is Ok ==> target == Some(r->Ok_0),
        r is Err ==> r->Err_0 is Custom && r->Err_0->Custom_0@ == missing_target_text(kind),
{
    match target {
        Some(t) => Ok(t),
        None => {
            let text: &str = match kind {
                TargetKind::Address => "Address not set",
                TargetKind::Path => "Path not set",
            };
            Err(Error::Custom(text.to_owned()))
        },
    }
}

/// Settings for a connection to a target of type `A`, gathered before
/// connecting.
pub struct TransportBuilder<A> {
    target: Option<A>,
    timeouts: Timeouts,
}

impl<A> TransportBuilder<A> {
    /// The target given so far.
    pub closed spec fn spec_target(&self) -> Option<A> {
        self.target
    }

    /// The deadlines given so far.
    pub closed spec fn spec_timeouts(&self) -> Timeouts {
        self.timeouts
    }

    /// A builder with no target and no deadlines.
    pub fn new() -> (r: TransportBuilder<A>)
        ensures
            r.spec_target() is None,
            r.spec_timeouts() == Timeouts::spec_none(),
    {
        TransportBuilder { target: None, timeouts: Timeouts::none() }
    }

    /// Sets the target to connect to.
    pub fn target(self, target: A) -> (r: TransportBuilder<A>)
        ensures
            r.spec_target() == Some(target),
            r.spec_timeouts() == self.spec_timeouts(),
    {
        TransportBuilder { target: Some(target), timeouts: self.timeouts }
    }

    /// Bounds the time spent connecting.
    pub fn connect_timeout(self, timeout: Duration) -> (r: TransportBuilder<A>)
        ensures
            r.spec_target() == self.spec_target(),
            r.spec_timeouts() == (Timeouts { connect: Some(timeout), ..self.spec_timeouts() }),
    {
        let mut t = self.timeouts;
        t.connect = Some(timeout);
        TransportBuilder { target: self.target, timeouts: t }
    }

    /// Bounds the time each send may take.
    pub fn send_timeout(self, timeout: Duration) -> (r: TransportBuilder<A>)
        ensures
            r.spec_target() == self.spec_target(),
            r.spec_timeouts() == (Timeouts { send: Some(timeout), ..self.spec_timeouts() }),
    {
        let mut t = self.timeouts;
        t.send = Some(timeout);
        TransportBuilder { target: self.target, timeouts: t }
    }

    /// Bounds the time each receive may take.
    pub fn receive_timeout(self, timeout: Duration) -> (r: TransportBuilder<A>)
        ensures
            r.spec_target() == self.spec_target(),
            r.spec_timeouts() == (Timeouts { receive: Some(timeout), ..self.spec_timeouts() }),
    {
        let mut t = self.timeouts;
        t.receive = Some(timeout);
        TransportBuilder { target: self.target, timeouts: t }
    }

    /// Checks that a target was given and hands over what connecting needs;
    /// `kind` names the target in the configuration error.
    pub fn config(self, kind: TargetKind) -> (r: Result<ConnectConfig<A>>)
        ensures
            self.spec_target() is Some <==> r is Ok,
            r is Ok ==> self.spec_target() == Some(r->Ok_0.target) && r->Ok_0.timeouts
                == self.spec_timeouts(),
            r is Err ==> r->Err_0 is Custom && r->Err_0->Custom_0@ == missing_target_text(kind),
    {
        let timeouts = self.timeouts;
        let target = require_target(self.target, kind)?;
        Ok(ConnectConfig { target, timeouts })
    }
}

/// Settings for a local-socket connection, gathered before connecting.
pub struct UnixTransportBuilder {
    inner: TransportBuilder<String>,
}

impl UnixTransportBuilder {
    /// The path given so far.
    pub closed spec fn spec_path(&self) -> Option<Seq<char>> {
        match self.inner.spec_target() {
            Some(p) => Some(p@),
            None => None,
        }
    }

    /// The deadlines given so far.
    pub closed spec fn spec_timeouts(&self) -> Timeouts {
        self.inner.spec_timeouts()
    }

    /// A builder with no path and no deadlines.
    pub fn new() -> (r: UnixTransportBuilder)
        ensures
            r.spec_path() is None,
            r.spec_timeouts() == Timeouts::spec_none(),
    {
        UnixTransportBuilder { inner: TransportBuilder::new() }
    }

    /// Sets the socket path to connect to.
    pub fn path(self, path: &str) -> (r: UnixTransportBuilder)
        ensures
            r.spec_path() == Some(path@),
            r.spec_timeouts() == self.spec_timeouts(),
    {
        UnixTransportBuilder { inner: self.inner.target(path.to_owned()) }
    }

    /// Bounds the time spent connecting.
    pub fn connect_timeout(self, timeout: Duration) -> (r: UnixTransportBuilder)
        ensures
            r.spec_path() == self.spec_path(),
            r.spec_timeouts() == (Timeouts { connect: Some(timeout), ..self.spec_timeouts() }),
    {
        UnixTransportBuilder { inner: self.inner.connect_timeout(timeout) }
    }

    /// Bounds the time each send may take.
    pub fn send_timeout(self, timeout: Duration) -> (r: UnixTransportBuilder)
        ensures
            r.spec_path() == self.spec_path(),
            r.spec_timeouts() == (Timeouts { send: Some(timeout), ..self.spec_timeouts() }),
    {
        UnixTransportBuilder { inner: self.inner.send_timeout(timeout) }
    }

    /// Bounds the time each receive may take.
    pub fn receive_timeout(self, timeout: Duration) -> (r: UnixTransportBuilder)
        ensures
            r.spec_path() == self.spec_path(),
            r.spec_timeouts() == (Timeouts { receive: Some(timeout), ..self.spec_timeouts() }),
    {
        UnixTransportBuilder { inner: self.inner.receive_timeout(timeout) }
    }

    /// Checks that a path was given and hands over what connecting needs.
    pub fn config(self) -> (r: Result<ConnectConfig<String>>)
        ensures
            self.spec_path() is Some <==> r is Ok,
            r is Ok ==> Some(r->Ok_0.target@) == self.spec_path() && r->Ok_0.timeouts
                == self.spec_timeouts(),
            r is Err ==> r->Err_0 is Custom && r->Err_0->Custom_0@ == missing_target_text(
                TargetKind::Path,
            ),
    {
        self.inner.config(TargetKind::Path)
    }
}

} // verus!
