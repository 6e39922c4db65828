use std::collections::HashMap;
use std::io::Read;

use bytes::BytesMut;
use cbor_frames::counted::Counted;
use cbor_frames::decoder::{classify, settle, Decoder, Outcome};

fn sample() -> HashMap<String, usize> {
    let mut data = HashMap::new();
    data.insert("hello".to_owned(), 42usize);
    data.insert("world".to_owned(), 0usize);
    data
}

/// Try decoding CBOR based data.
#[test]
fn decode() {
    let data = sample();
    let encoded = serde_cbor::to_vec(&data).unwrap();
    let mut all = BytesMut::with_capacity(128);
    // Put two copies and a bit into the buffer
    all.extend(&encoded);
    all.extend(&encoded);
    all.extend(&encoded[..1]);
    let mut decoder: Decoder<HashMap<String, usize>> = Decoder::new();
    // We can now decode the first two copies
    let decoded = decoder.decode(&mut all).unwrap().unwrap();
    assert_eq!(data, decoded);
    let decoded = decoder.decode(&mut all).unwrap().unwrap();
    assert_eq!(data, decoded);
    // And only 1 byte is left
    assert_eq!(1, all.len());
    // But the third one is not ready yet, so we get Ok(None)
    assert!(decoder.decode(&mut all).unwrap().is_none());
    // That single byte should still be there, yet unused
    assert_eq!(1, all.len());
    // We add the rest and get a third copy
    all.extend(&encoded[1..]);
    let decoded = decoder.decode(&mut all).unwrap().unwrap();
    assert_eq!(data, decoded);
    // Nothing there now
    assert!(all.is_empty());
    // Now we put some garbage there and see that it errors
    all.extend(&[0, 1, 2, 3, 4]);
    decoder.decode(&mut all).unwrap_err();
    // All 5 bytes are still there
    assert_eq!(5, all.len());
}

#[test]
fn round_trip_consumes_exactly_the_encoding() {
    let data = sample();
    let encoded = serde_cbor::to_vec(&data).unwrap();
    let decoder: Decoder<HashMap<String, usize>> = Decoder::new();
    match decoder.attempt(&encoded) {
        Outcome::Decoded(v, n) => {
            assert_eq!(data, v);
            assert_eq!(encoded.len(), n);
        }
        _ => panic!("expected a decoded value"),
    }
}

#[test]
fn concatenated_frames_come_out_in_order() {
    let first = serde_cbor::to_vec(&7u32).unwrap();
    let second = serde_cbor::to_vec(&300u32).unwrap();
    let mut buf = BytesMut::with_capacity(16);
    buf.extend(&first);
    buf.extend(&second);
    let mut decoder: Decoder<u32> = Decoder::new();
    assert_eq!(Some(7), decoder.decode(&mut buf).unwrap());
    assert_eq!(second.len(), buf.len());
    assert_eq!(Some(300), decoder.decode(&mut buf).unwrap());
    assert!(buf.is_empty());
}

#[test]
fn empty_buffer_is_incomplete() {
    let mut buf = BytesMut::with_capacity(4);
    let mut decoder: Decoder<HashMap<String, usize>> = Decoder::new();
    assert!(decoder.decode(&mut buf).unwrap().is_none());
    assert!(buf.is_empty());
}

#[test]
fn failures_repeat_on_an_unchanged_buffer() {
    let encoded = serde_cbor::to_vec(&sample()).unwrap();
    let mut decoder: Decoder<HashMap<String, usize>> = Decoder::new();
    let mut short = BytesMut::with_capacity(64);
    short.extend(&encoded[..encoded.len() - 1]);
    assert!(decoder.decode(&mut short).unwrap().is_none());
    assert!(decoder.decode(&mut short).unwrap().is_none());
    assert_eq!(encoded.len() - 1, short.len());
    let mut bad = BytesMut::with_capacity(8);
    bad.extend(&[0xff, 0xff, 0xff]);
    assert!(decoder.decode(&mut bad).is_err());
    assert!(decoder.decode(&mut bad).is_err());
    assert_eq!(3, bad.len());
}

#[test]
fn settle_removes_only_a_decoded_frame() {
    let mut buf = BytesMut::with_capacity(8);
    buf.extend(&[1, 2, 3, 4]);
    let r = settle(&mut buf, Outcome::Decoded(9u8, 3));
    assert_eq!(Some(9), r.unwrap());
    assert_eq!(&[4u8][..], &buf[..]);
    let r = settle::<u8>(&mut buf, Outcome::Incomplete);
    assert!(r.unwrap().is_none());
    assert_eq!(1, buf.len());
    let err = serde_cbor::from_slice::<u8>(&[0x61, 0x41]).unwrap_err();
    let r = settle::<u8>(&mut buf, Outcome::Malformed(err));
    assert!(r.is_err());
    assert_eq!(&[4u8][..], &buf[..]);
}

#[test]
fn counted_reader_counts_what_it_hands_out() {
    let data = [10u8, 20, 30, 40, 50];
    let mut reader = Counted::new(&data);
    let mut buf = [0u8; 3];
    assert_eq!(3, reader.read_into(&mut buf));
    assert_eq!([10, 20, 30], buf);
    assert_eq!(3, reader.consumed());
    assert_eq!(2, reader.read_into(&mut buf));
    assert_eq!([40, 50, 30], buf);
    assert_eq!(5, reader.consumed());
    assert_eq!(0, reader.read_into(&mut buf));
    assert_eq!(5, reader.consumed());
}

#[test]
fn counted_reader_serves_std_read() {
    let data = [1u8, 2, 3];
    let mut reader = Counted::new(&data);
    let mut out = Vec::new();
    reader.read_to_end(&mut out).unwrap();
    assert_eq!(vec![1u8, 2, 3], out);
    assert_eq!(3, reader.consumed());
}

#[test]
fn classify_sorts_deserializer_results() {
    match classify::<u8>(Ok(7), 1, false) {
        Outcome::Decoded(v, n) => {
            assert_eq!(7, v);
            assert_eq!(1, n);
        }
        _ => panic!("expected a decoded value"),
    }
    let short = serde_cbor::from_slice::<u32>(&[0x1a, 0x00]).unwrap_err();
    assert!(short.is_eof());
    assert!(matches!(classify::<u32>(Err(short), 2, true), Outcome::Incomplete));
    let bad = serde_cbor::from_slice::<u8>(&[0x61, 0x41]).unwrap_err();
    assert!(!bad.is_eof());
    match classify::<u8>(Err(bad), 2, false) {
        Outcome::Malformed(e) => assert!(!e.is_eof()),
        _ => panic!("expected malformed input"),
    }
}
