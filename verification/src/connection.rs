//! One UI connection, seen from its socket.
//!
//! The program around the library owns the socket. It hands the bytes it
//! reads to [`UiConnection::receive`], takes whole request payloads from
//! [`UiConnection::next_payload`], tells [`UiConnection::forward`] what each
//! payload reads as, and frames each response with
//! [`UiConnection::frame_response`]. A frame that announces too much and a
//! payload that is no request are protocol errors: they close the
//! connection, and a closed connection yields nothing further.

use vstd::prelude::*;

use crate::frame::{encode_frame, spec_decode, spec_frame, FrameDecoder, FrameError, FrameStatus, MAX_FRAME_LENGTH};
use crate::types::{ConnectionId, InternalServicePayload};

verus! {

/// A UI connection as a mathematical value.
pub struct UiConnectionState {
    /// The id that the router minted for the connection.
    pub id: ConnectionId,
    /// The bytes that have arrived and belong to no payload yet.
    pub pending: Seq<u8>,
    /// Whether the connection has ended.
    pub closed: bool,
}

/// The reading side of a UI connection.
pub struct UiConnection {
    id: ConnectionId,
    decoder: FrameDecoder,
    closed: bool,
}

impl View for UiConnection {
    type V = UiConnectionState;

    closed spec fn view(&self) -> UiConnectionState {
        UiConnectionState { id: self.id, pending: self.decoder@, closed: self.closed }
    }
}

impl UiConnection {
    /// The connection `id`, open, with nothing read yet.
    pub fn new(id: ConnectionId) -> (connection: UiConnection)
        ensures
            connection@ == (UiConnectionState { id, pending: Seq::<u8>::empty(), closed: false }),
    {
        UiConnection { id, decoder: FrameDecoder::new(), closed: false }
    }

    /// The id of the connection.
    pub fn id(&self) -> (id: ConnectionId)
        ensures
            id == self@.id,
    {
        self.id
    }

    /// Whether the connection has ended.
    pub fn is_closed(&self) -> (closed: bool)
        ensures
            closed == self@.closed,
    {
        self.closed
    }

    /// Takes in bytes as they arrive from the socket. A closed connection
    /// takes in nothing.
    pub fn receive(&mut self, bytes: &[u8])
        ensures
            final(self)@ == (UiConnectionState {
                pending: if old(self)@.closed {
                    old(self)@.pending
                } else {
                    old(self)@.pending + bytes@
                },
                ..old(self)@
            }),
    {
        if !self.closed {
            self.decoder.extend(bytes);
        }
    }

    /// Ends the connection: the socket reached its end, a payload could not
    /// be understood, or a write failed.
    pub fn close(&mut self)
        ensures
            final(self)@ == (UiConnectionState { closed: true, ..old(self)@ }),
    {
        self.closed = true;
    }

    /// Hands out the payload of the next whole frame.
    ///
    /// Returns `None` while no whole frame is there, and on a closed
    /// connection. A frame that announces more than the largest payload is
    /// refused, and the refusal closes the connection.
    pub fn next_payload(&mut self) -> (result: Result<Option<Vec<u8>>, FrameError>)
        ensures
            final(self)@.id == old(self)@.id,
            old(self)@.closed ==> result == Ok::<Option<Vec<u8>>, FrameError>(None) && final(self)@
                == old(self)@,
            !old(self)@.closed ==> match spec_decode(old(self)@.pending) {
                FrameStatus::Incomplete => {
                    &&& result == Ok::<Option<Vec<u8>>, FrameError>(None)
                    &&& final(self)@ == old(self)@
                },
                FrameStatus::Frame { payload, consumed } => {
                    &&& result is Ok
                    &&& result->Ok_0 is Some
                    &&& result->Ok_0->Some_0@ == payload
                    &&& final(self)@ == (UiConnectionState {
                        pending: old(self)@.pending.skip(consumed as int),
                        ..old(self)@
                    })
                },
                FrameStatus::TooLong { length } => {
                    &&& result == Err::<Option<Vec<u8>>, FrameError>(
                        FrameError::FrameTooLong { length: length as u64 },
                    )
                    &&& final(self)@ == (UiConnectionState { closed: true, ..old(self)@ })
                },
            },
    {
        if self.closed {
            return Ok(None);
        }
        let result = self.decoder.next_frame();
        if result.is_err() {
            self.closed = true;
        }
        result
    }

    /// Takes what became of a payload when it was read as a request.
    ///
    /// A payload that is no request is a protocol error: it closes the
    /// connection and nothing is forwarded. A request goes on to the router,
    /// stamped with the id of this connection, unless the connection is
    /// closed already.
    pub fn forward(&mut self, decoded: Option<InternalServicePayload>) -> (request: Option<
        InternalServicePayload,
    >)
        ensures
            final(self)@ == (UiConnectionState {
                closed: old(self)@.closed || decoded is None,
                ..old(self)@
            }),
            request == match decoded {
                Some(r) => if old(self)@.closed {
                    None
                } else {
                    Some(r.spec_with_uuid(old(self)@.id))
                },
                None => None,
            },
    {
        match decoded {
            Some(request) => {
                if self.closed {
                    None
                } else {
                    Some(request.with_uuid(self.id))
                }
            },
            None => {
                self.closed = true;
                None
            },
        }
    }

    /// Stamps a request with the id of the connection it arrived on,
    /// whatever origin the UI wrote into it.
    pub fn stamp(&self, request: InternalServicePayload) -> (stamped: InternalServicePayload)
        ensures
            stamped == request.spec_with_uuid(self@.id),
            stamped.spec_uuid() == self@.id,
    {
        request.with_uuid(self.id)
    }

    /// Frames the payload of a response for the socket. A payload over the
    /// largest size is refused.
    pub fn frame_response(&self, payload: &[u8]) -> (result: Result<Vec<u8>, FrameError>)
        ensures
            payload@.len() <= MAX_FRAME_LENGTH ==> result is Ok && result->Ok_0@ == spec_frame(
                payload@,
            ),
            payload@.len() > MAX_FRAME_LENGTH ==> result == Err::<Vec<u8>, FrameError>(
                FrameError::FrameTooLong { length: payload@.len() as u64 },
            ),
    {
        encode_frame(payload)
    }
}

} // verus!
