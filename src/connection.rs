use vstd::prelude::*;
use crate::framing::{decode_response, decode_result, FrameError};

verus! {

/// Application error code that a connection is closed with on shutdown: no error.
pub const NO_ERROR_CODE: u32 = 0;

/// Stream ids run below this bound (they are variable-length integers of 62 bits).
pub const STREAM_ID_BOUND: u64 = 0x4000_0000_0000_0000;

/// The reason given when a connection is closed on shutdown.
pub open spec fn shutdown_reason() -> Seq<u8> {
    seq![83u8, 104u8, 117u8, 116u8, 100u8, 111u8, 119u8, 110u8]
}

/// The id of the stream that carries the `k`-th query of a connection: client-initiated
/// bidirectional streams are numbered 0, 4, 8, and so on.
pub open spec fn query_stream_id(k: nat) -> nat {
    4 * k
}

/// How a connection is to be closed.
#[derive(Clone, Debug, PartialEq, Eq)]
pub struct CloseRequest {
    pub code: u32,
    pub reason: Vec<u8>,
}

/// Why a query could not be given a stream.
#[derive(Clone, Copy, Debug, PartialEq, Eq, Structural)]
pub enum QueryError {
    /// The connection has used up its stream ids.
    StreamsExhausted,
}

/// The state that a connection's queries share: whether it was shut down, and how
/// many query streams it has opened.
pub struct StreamState {
    shut_down: bool,
    queries_opened: u64,
}

impl StreamState {
    pub closed spec fn is_shut_down(&self) -> bool {
        self.shut_down
    }

    pub closed spec fn opened(&self) -> nat {
        self.queries_opened as nat
    }

    /// The state of a connection that was just established.
    pub fn new() -> (r: StreamState)
        ensures
            !r.is_shut_down(),
            r.opened() == 0,
    {
        StreamState { shut_down: false, queries_opened: 0 }
    }

    /// Whether the connection was shut down.
    pub fn is_shutdown(&self) -> (r: bool)
        ensures
            r == self.is_shut_down(),
    {
        self.shut_down
    }

    /// Shuts the connection down. The first call asks for the connection to be closed
    /// with no error and a short reason; a later call changes nothing and asks for
    /// nothing.
    pub fn shutdown(&mut self) -> (r: Option<CloseRequest>)
        ensures
            final(self).is_shut_down(),
            final(self).opened() == old(self).opened(),
            old(self).is_shut_down() ==> r is None && *final(self) == *old(self),
            !old(self).is_shut_down() ==> r is Some && r->Some_0.code == NO_ERROR_CODE
                && r->Some_0.reason@ == shutdown_reason(),
    {
        if self.shut_down {
            return None;
        }
        self.shut_down = true;
        let reason: Vec<u8> = vec![83u8, 104u8, 117u8, 116u8, 100u8, 111u8, 119u8, 110u8];
        assert(reason@ =~= shutdown_reason());
        Some(CloseRequest { code: NO_ERROR_CODE, reason })
    }

    /// The liveness signal: ready while the connection is up, and nothing once it was
    /// shut down.
    pub fn liveness(&self) -> (r: Option<()>)
        ensures
            r is Some <==> !self.is_shut_down(),
    {
        if self.shut_down {
            None
        } else {
            Some(())
        }
    }

    /// Admits one more query and gives the id of the stream that will carry it. A
    /// connection that was shut down admits none.
    pub fn open_query(&mut self) -> (r: Result<u64, QueryError>)
        requires
            !old(self).is_shut_down(),
        ensures
            !final(self).is_shut_down(),
            query_stream_id(old(self).opened()) < STREAM_ID_BOUND ==> r == Ok::<u64, QueryError>(
                query_stream_id(old(self).opened()) as u64,
            ) && final(self).opened() == old(self).opened() + 1,
            query_stream_id(old(self).opened()) >= STREAM_ID_BOUND ==> r == Err::<u64, QueryError>(
                QueryError::StreamsExhausted,
            ) && final(self).opened() == old(self).opened(),
    {
        if self.queries_opened >= STREAM_ID_BOUND / 4 {
            return Err(QueryError::StreamsExhausted);
        }
        let id = self.queries_opened * 4;
        self.queries_opened = self.queries_opened + 1;
        Ok(id)
    }
}

/// Distinct queries of a connection travel on distinct streams.
pub proof fn lemma_query_streams_distinct(j: nat, k: nat)
    requires
        j != k,
    ensures
        query_stream_id(j) != query_stream_id(k),
{
}

/// The response to one query: the message that arrived on the query's own stream.
pub struct QuicClientResponse {
    stream_id: u64,
    message: Vec<u8>,
}

impl QuicClientResponse {
    pub closed spec fn stream(&self) -> u64 {
        self.stream_id
    }

    pub closed spec fn message_view(&self) -> Seq<u8> {
        self.message@
    }

    /// Reads the response that stream `stream_id` delivered before its peer closed it.
    pub fn from_stream(stream_id: u64, received: &[u8]) -> (r: Result<QuicClientResponse, FrameError>)
        ensures
            match (r, decode_result(received@)) {
                (Ok(resp), Ok(m)) => resp.stream() == stream_id && resp.message_view() == m,
                (Err(e), Err(f)) => e == f,
                _ => false,
            },
    {
        match decode_response(received) {
            Ok(message) => Ok(QuicClientResponse { stream_id, message }),
            Err(e) => Err(e),
        }
    }

    /// The id of the stream that the response arrived on.
    pub fn stream_id(&self) -> (r: u64)
        ensures
            r == self.stream(),
    {
        self.stream_id
    }

    /// The response message.
    pub fn message(&self) -> (r: &Vec<u8>)
        ensures
            r@ == self.message_view(),
    {
        &self.message
    }

    /// Takes the response message.
    pub fn into_message(self) -> (r: Vec<u8>)
        ensures
            r@ == self.message_view(),
    {
        self.message
    }
}

} // verus!
