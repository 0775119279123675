//! The fixed-width string round trip through the public codec.

use lending_client::utils::encode_decode_round_trip;

#[test]
fn round_trip_returns_original_string() {
    assert_eq!(encode_decode_round_trip("Degen Apes"), "Degen Apes");
    assert_eq!(encode_decode_round_trip(""), "");
    assert_eq!(encode_decode_round_trip("exactly thirty-two bytes long!!!"), "exactly thirty-two bytes long!!!");
}
