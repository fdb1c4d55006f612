//! Registration of telemetry streams before the socket server starts.
//!
//! The builder collects the JSON description of each registered stream as
//! UTF-8 bytes, in registration order; the socket server, which lives
//! outside the library with its listener and worker threads, replays them
//! to every new connection.

use vstd::prelude::*;
use vstd::slice::slice_to_vec;
use vstd::utf8::encode_utf8;
use crate::telemetry::{spec_stream_json, TelemetryStreamDefinition};

verus! {

/// Collects stream definitions for a socket telemetry server.
pub struct SocketTelemetryServerBuilder {
    /// The registered streams' JSON descriptions, as bytes, in
    /// registration order.
    pub stream_definitions: Vec<Vec<u8>>,
}

impl SocketTelemetryServerBuilder {
    /// A builder with no stream registered.
    pub fn new() -> (r: SocketTelemetryServerBuilder)
        ensures
            r.stream_definitions@.len() == 0,
    {
        SocketTelemetryServerBuilder { stream_definitions: Vec::new() }
    }

    /// Registers a stream: records the UTF-8 bytes of its JSON
    /// description and hands the stream back for logging use.
    pub fn register_stream(&mut self, stream: TelemetryStreamDefinition) -> (r:
        TelemetryStreamDefinition)
        ensures
            final(self).stream_definitions@.len() == old(self).stream_definitions@.len() + 1,
            forall|i: int|
                0 <= i < old(self).stream_definitions@.len()
                    ==> #[trigger] final(self).stream_definitions@[i]
                    == old(self).stream_definitions@[i],
            final(self).stream_definitions@.last()@ == encode_utf8(
                spec_stream_json(stream.stream_id, stream.name@, stream.fields@),
            ),
            r == stream,
    {
        let json = stream.to_json();
        let bytes = slice_to_vec(json.as_str().as_bytes());
        self.stream_definitions.push(bytes);
        stream
    }
}

} // verus!
