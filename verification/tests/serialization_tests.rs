//! Tests for the serializer tail: an empty graph yields no outputs, and a
//! non-empty one yields a single zstd frame that decodes back to the input.

use plugin_work_queue::serialization::serialize_completed_proto;

#[test]
fn empty_graph_serializes_to_no_outputs() {
    let outputs = serialize_completed_proto(&Vec::new(), true).expect("empty flush succeeds");
    assert!(outputs.is_empty());
    let outputs =
        serialize_completed_proto(&b"ignored".to_vec(), true).expect("empty flush succeeds");
    assert!(outputs.is_empty());
}

#[test]
fn compressed_output_decodes_back_to_the_encoded_graph() {
    let encoded = b"\x0a\x07process\x12\x03pid".repeat(50);
    let outputs = serialize_completed_proto(&encoded, false).expect("compression succeeds");
    assert_eq!(outputs.len(), 1);
    assert_ne!(outputs[0], encoded, "the frame is compressed, not the input handed back");
    let decoded = zstd::stream::decode_all(outputs[0].as_slice()).expect("a valid zstd frame");
    assert_eq!(decoded, encoded);
}

#[test]
fn compression_shrinks_repetitive_input() {
    let encoded = vec![7u8; 100_000];
    let outputs = serialize_completed_proto(&encoded, false).expect("compression succeeds");
    assert!(outputs[0].len() < encoded.len() / 10);
}
