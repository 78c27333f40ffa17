//! The tail of the completion-event serializers: once the merged subgraph has
//! been encoded to bytes, an empty graph yields no outputs and anything else
//! is compressed into a single output frame.

use vstd::prelude::*;

verus! {

/// The compression level the serializers use.
pub const COMPRESSION_LEVEL: i32 = 4;

/// The error a serializer reports: the compressor's I/O layer failed, with
/// its message.
#[derive(Clone, Debug, PartialEq, Eq)]
pub enum SerializerError {
    Io(String),
}

/// The zstd frame that encodes `data` at `level`.
pub uninterp spec fn zstd_encoding(data: Seq<u8>, level: int) -> Seq<u8>;

/// Relies on zstd's `stream::encode_all`: the encoded frame is a function of
/// the input bytes and the level alone.
#[verifier::external_body]
fn zstd_compress(data: &Vec<u8>, level: i32) -> (r: Result<Vec<u8>, SerializerError>)
    ensures
        r matches Ok(out) ==> out@ == zstd_encoding(data@, level as int),
{
    match zstd::stream::encode_all(data.as_slice(), level) {
        Ok(out) => Ok(out),
        Err(e) => Err(SerializerError::Io(e.to_string())),
    }
}

/// The outputs of one serializer flush. An empty merged graph serializes to
/// no outputs at all; any other graph, already encoded to `encoded`, is
/// compressed at [`COMPRESSION_LEVEL`] and returned as the single output.
pub fn serialize_completed_proto(encoded: &Vec<u8>, graph_is_empty: bool) -> (r: Result<
    Vec<Vec<u8>>,
    SerializerError,
>)
    ensures
        graph_is_empty ==> {
            &&& r matches Ok(outputs)
            &&& outputs@.len() == 0
        },
        !graph_is_empty ==> match r {
            Ok(outputs) => outputs@.len() == 1 && outputs@[0]@ == zstd_encoding(
                encoded@,
                COMPRESSION_LEVEL as int,
            ),
            Err(_) => true,
        },
{
    if graph_is_empty {
        return Ok(Vec::new());
    }
    let compressed = match zstd_compress(encoded, COMPRESSION_LEVEL) {
        Ok(c) => c,
        Err(e) => {
            return Err(e);
        },
    };
    let mut outputs: Vec<Vec<u8>> = Vec::new();
    outputs.push(compressed);
    Ok(outputs)
}

} // verus!
