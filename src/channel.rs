use vstd::prelude::*;

verus! {

/// One transport paired with one codec: a persistent, bidirectional
/// message pipe. It keeps no state of its own beyond the two.
pub struct Channel<T, C> {
    transport: T,
    codec: C,
}

impl<T, C> Channel<T, C> {
    /// The transport the channel delegates to.
    pub closed spec fn spec_transport(&self) -> T {
        self.transport
    }

    /// The codec the channel delegates to.
    pub closed spec fn spec_codec(&self) -> C {
        self.codec
    }

    /// Pairs an open transport, of either role, with a codec.
    pub fn from_transport(transport: T, codec: C) -> (r: Channel<T, C>)
        ensures
            r.spec_transport() == transport,
            r.spec_codec() == codec,
    {
        Channel { transport, codec }
    }

    /// The codec, to encode outgoing and decode incoming values.
    pub fn codec(&self) -> (r: &C)
        ensures
            *r == self.spec_codec(),
    {
        &self.codec
    }

    /// The transport, to send and receive frames on.
    pub fn transport_mut(&mut self) -> (r: &mut T)
        ensures
            *r == old(self).spec_transport(),
            final(self).spec_transport() == *final(r),
            final(self).spec_codec() == old(self).spec_codec(),
    {
        &mut self.transport
    }

    /// Ends the channel, handing back its transport to be closed.
    pub fn into_transport(self) -> (r: T)
        ensures
            r == self.spec_transport(),
    {
        self.transport
    }
}

} // verus!
