//! The session: a transport, and the choice between sending each write at
//! once and gathering writes until they are flushed.
use vstd::prelude::*;
use crate::Result;
use crate::interface::PTouchInterface;

verus! {

/// A printer behind the transport `D`.
///
/// The session does not check the order of commands: a device that is sent
/// them out of order reports so in its status.
pub struct PTouchPrinter<D> {
    pub interface: D,
    send_buffer: Option<Vec<u8>>,
    handed_over: Ghost<Seq<u8>>,
}

impl<D: PTouchInterface> PTouchPrinter<D> {
    /// The transport of the session.
    pub closed spec fn transport(&self) -> D {
        self.interface
    }

    /// The bytes that the session has handed to its transport in writes
    /// that the transport reported as done, in the order handed over.
    pub closed spec fn wire(&self) -> Seq<u8> {
        self.handed_over@
    }

    /// Whether writes are gathered until a flush.
    pub closed spec fn is_buffered(&self) -> bool {
        self.send_buffer is Some
    }

    /// The bytes gathered and not yet handed to the transport.
    pub closed spec fn pending(&self) -> Seq<u8> {
        match self.send_buffer {
            Some(buffer) => buffer@,
            None => Seq::empty(),
        }
    }

    /// Every byte that the session has taken and not lost: what the
    /// transport has accepted, then what waits in the buffer.
    pub open spec fn stream(&self) -> Seq<u8> {
        self.wire() + self.pending()
    }

    /// How `data`, written to the session `before`, leaves it. A gathering
    /// session always takes the bytes, and keeps them from the transport.
    /// An immediate one hands them on, and the transport decides; what it
    /// refuses is not on the wire. Either way a write that succeeds puts
    /// `data` at the end of the stream.
    pub open spec fn written(before: Self, after: Self, data: Seq<u8>, r: Result<()>) -> bool {
        &&& after.is_buffered() == before.is_buffered()
        &&& r is Ok ==> after.stream() =~= before.stream() + data
        &&& before.is_buffered() ==> {
            &&& r is Ok
            &&& after.transport() == before.transport()
            &&& after.wire() == before.wire()
            &&& after.pending() =~= before.pending() + data
        }
        &&& !before.is_buffered() ==> {
            &&& after.pending() =~= Seq::<u8>::empty()
            &&& r is Ok ==> after.wire() =~= before.wire() + data
            &&& r is Err ==> after.wire() == before.wire()
        }
    }

    /// A session that sends every write at once.
    pub fn unbuffered(interface: D) -> (p: Self)
        ensures
            !p.is_buffered(),
            p.transport() == interface,
            p.wire() == Seq::<u8>::empty(),
            p.pending() == Seq::<u8>::empty(),
    {
        PTouchPrinter { interface, send_buffer: None, handed_over: Ghost(Seq::empty()) }
    }

    /// A session that gathers writes and sends them when flushed.
    pub fn buffered(interface: D) -> (p: Self)
        ensures
            p.is_buffered(),
            p.transport() == interface,
            p.wire() == Seq::<u8>::empty(),
            p.pending() == Seq::<u8>::empty(),
    {
        PTouchPrinter {
            interface,
            send_buffer: Some(Vec::new()),
            handed_over: Ghost(Seq::empty()),
        }
    }

    /// Takes `data` for the device: into the buffer of a gathering session,
    /// to the transport otherwise.
    pub fn write(&mut self, data: &[u8]) -> (r: Result<()>)
        ensures
            Self::written(*old(self), *final(self), data@, r),
    {
        if let Some(buffer) = self.send_buffer.as_mut() {
            buffer.extend_from_slice(data);
            Ok(())
        } else {
            let r = self.interface.write(data);
            self.handed_over = Ghost(
                if r is Ok {
                    self.handed_over@ + data@
                } else {
                    self.handed_over@
                },
            );
            r
        }
    }

    /// Hands the gathered bytes to the transport and, once it has taken
    /// them, empties the buffer. An immediate session has nothing to do.
    pub fn flush(&mut self) -> (r: Result<()>)
        ensures
            final(self).is_buffered() == old(self).is_buffered(),
            !old(self).is_buffered() ==> r is Ok && *final(self) == *old(self),
            r is Ok ==> final(self).pending() == Seq::<u8>::empty() && final(self).wire() == old(
                self,
            ).wire() + old(self).pending(),
            r is Err ==> final(self).pending() == old(self).pending() && final(self).wire() == old(
                self,
            ).wire(),
            r is Ok ==> final(self).stream() == old(self).stream(),
    {
        if let Some(buffer) = self.send_buffer.as_mut() {
            self.interface.write(buffer.as_slice())?;
            self.handed_over = Ghost(self.handed_over@ + buffer@);
            buffer.clear();
        }
        Ok(())
    }
}

} // verus!
