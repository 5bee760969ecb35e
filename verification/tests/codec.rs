use measuring_device::icd::{
    decode_bool, decode_measurement, decode_start_measuring, encode_bool, encode_measurement,
    encode_path, encode_start_measuring, parse_path, Measurement, PathId, StartMeasuring,
};
use measuring_device::wire::{decode_le4, decode_varint_u32, encode_le4, encode_varint_u32};

fn varint(x: u32) -> Vec<u8> {
    let mut out: Vec<u8> = Vec::new();
    encode_varint_u32(x, &mut out);
    out
}

#[test]
fn varint_single_byte_values() {
    assert_eq!(varint(0), vec![0]);
    assert_eq!(varint(1), vec![1]);
    assert_eq!(varint(127), vec![0x7f]);
}

#[test]
fn varint_multi_byte_values() {
    assert_eq!(varint(128), vec![0x80, 0x01]);
    assert_eq!(varint(300), vec![0xac, 0x02]);
    assert_eq!(varint(1000), vec![0xe8, 0x07]);
    assert_eq!(varint(u32::MAX), vec![0xff, 0xff, 0xff, 0xff, 0x0f]);
}

#[test]
fn varint_matches_postcard_encoding() {
    for x in [0u32, 1, 127, 128, 300, 1000, 16383, 16384, 0x0fff_ffff, u32::MAX] {
        assert_eq!(varint(x), postcard::to_allocvec(&x).unwrap());
    }
}

#[test]
fn varint_round_trip() {
    for x in [0u32, 1, 127, 128, 300, 1000, 16384, u32::MAX] {
        let enc = varint(x);
        assert_eq!(decode_varint_u32(&enc, 0), Some((x, enc.len())));
    }
}

#[test]
fn varint_decode_matches_postcard() {
    // A non-canonical but in-range encoding is accepted, as postcard accepts it.
    let bytes = vec![0x80u8, 0x00];
    assert_eq!(decode_varint_u32(&bytes, 0), Some((0, 2)));
    assert_eq!(postcard::from_bytes::<u32>(&bytes).unwrap(), 0);
}

#[test]
fn varint_truncated_is_malformed() {
    assert_eq!(decode_varint_u32(&vec![], 0), None);
    assert_eq!(decode_varint_u32(&vec![0x80], 0), None);
    assert_eq!(decode_varint_u32(&vec![0xff, 0xff], 0), None);
}

#[test]
fn varint_fifth_byte_bound() {
    assert_eq!(
        decode_varint_u32(&vec![0xff, 0xff, 0xff, 0xff, 0x0f], 0),
        Some((u32::MAX, 5))
    );
    // The fifth byte may only carry the top four bits.
    assert_eq!(decode_varint_u32(&vec![0xff, 0xff, 0xff, 0xff, 0x10], 0), None);
    assert_eq!(decode_varint_u32(&vec![0xff, 0xff, 0xff, 0xff, 0xff, 0x01], 0), None);
}

#[test]
fn le4_round_trip() {
    for x in [0u32, 1, 0xdead_beef, u32::MAX] {
        let mut out: Vec<u8> = Vec::new();
        encode_le4(x, &mut out);
        assert_eq!(out.len(), 4);
        assert_eq!(decode_le4(&out, 0), Some((x, 4)));
    }
    assert_eq!(decode_le4(&vec![1, 2, 3], 0), None);
}

#[test]
fn measurement_payload_matches_postcard_float() {
    let temp = 21.5f32;
    let m = Measurement { temp01_bits: temp.to_bits() };
    let enc = encode_measurement(&m);
    assert_eq!(enc, postcard::to_allocvec(&temp).unwrap());
    assert_eq!(decode_measurement(&enc), Some(m));
}

#[test]
fn start_payload_matches_postcard() {
    let req = StartMeasuring { interval_ms: 1000, threshold_bits: 0.0f32.to_bits() };
    let enc = encode_start_measuring(&req);
    assert_eq!(enc, postcard::to_allocvec(&(1000u32, 0.0f32)).unwrap());
}

#[test]
fn start_payload_round_trip() {
    for interval in [0u32, 1, 1000, u32::MAX] {
        for threshold in [0u32, 0x3f80_0000] {
            let req = StartMeasuring { interval_ms: interval, threshold_bits: threshold };
            assert_eq!(decode_start_measuring(&encode_start_measuring(&req)), Some(req));
        }
    }
}

#[test]
fn start_payload_trailing_bytes_ignored() {
    let req = StartMeasuring { interval_ms: 1000, threshold_bits: 0 };
    let mut enc = encode_start_measuring(&req);
    enc.push(0xaa);
    enc.push(0xbb);
    assert_eq!(decode_start_measuring(&enc), Some(req));

    let m = Measurement { temp01_bits: 0x1234_5678 };
    let mut enc = encode_measurement(&m);
    enc.push(0x99);
    assert_eq!(decode_measurement(&enc), Some(m));
}

#[test]
fn start_payload_malformed() {
    assert_eq!(decode_start_measuring(&vec![]), None);
    // Truncated interval.
    assert_eq!(decode_start_measuring(&vec![0x80]), None);
    // Interval present but threshold truncated.
    assert_eq!(decode_start_measuring(&vec![0xe8, 0x07, 0, 0, 0]), None);
}

#[test]
fn bool_payload_codec() {
    assert_eq!(encode_bool(true), vec![1]);
    assert_eq!(encode_bool(false), vec![0]);
    assert_eq!(encode_bool(true), postcard::to_allocvec(&true).unwrap());
    assert_eq!(decode_bool(&vec![0]), Some(false));
    assert_eq!(decode_bool(&vec![1]), Some(true));
    assert_eq!(decode_bool(&vec![2]), None);
    assert_eq!(decode_bool(&vec![]), None);
}

#[test]
fn known_paths_parse_back() {
    for p in [PathId::Start, PathId::Stop, PathId::Data, PathId::Measure, PathId::Error] {
        assert_eq!(parse_path(&encode_path(p)), Some(p));
    }
    assert_eq!(encode_path(PathId::Start), b"measuring/start".to_vec());
    assert_eq!(encode_path(PathId::Stop), b"measuring/stop".to_vec());
    assert_eq!(encode_path(PathId::Data), b"measuring/data".to_vec());
    assert_eq!(encode_path(PathId::Measure), b"measurement".to_vec());
    assert_eq!(encode_path(PathId::Error), b"error".to_vec());
}

#[test]
fn unknown_path_does_not_parse() {
    assert_eq!(parse_path(&b"measuring/pause".to_vec()), None);
    assert_eq!(parse_path(&b"".to_vec()), None);
    assert_eq!(parse_path(&b"measuring/star".to_vec()), None);
}
