use sstv::tuples::{DualFloatTupleStdin, TupleRead};

#[test]
fn empty_stream_ends_cleanly() {
    let mut src = DualFloatTupleStdin::new(Vec::new());
    assert_eq!(src.next(), TupleRead::EndOfStream);
    assert_eq!(src.next(), TupleRead::EndOfStream);
}

#[test]
fn one_pair_then_end() {
    let mut bytes = Vec::new();
    bytes.extend_from_slice(&440.0f32.to_bits().to_le_bytes());
    bytes.extend_from_slice(&1.5f32.to_bits().to_le_bytes());
    let mut src = DualFloatTupleStdin::new(bytes);
    match src.next() {
        TupleRead::Pair(f, d) => {
            assert_eq!(f32::from_bits(f), 440.0);
            assert_eq!(f32::from_bits(d), 1.5);
        }
        other => panic!("expected a pair, got {:?}", other),
    }
    assert_eq!(src.next(), TupleRead::EndOfStream);
}

#[test]
fn little_endian_word_order() {
    let mut src = DualFloatTupleStdin::new(vec![0x01, 0x02, 0x03, 0x04, 0xff, 0x00, 0x00, 0x00]);
    assert_eq!(src.next(), TupleRead::Pair(0x04030201, 0x000000ff));
}

#[test]
fn truncated_mid_pair() {
    // Ending after the frequency word, or inside any word, is malformed.
    for n in 1..8usize {
        let mut src = DualFloatTupleStdin::new(vec![0u8; n]);
        assert_eq!(src.next(), TupleRead::Truncated);
    }
}

#[test]
fn truncated_second_pair() {
    let mut bytes = vec![0u8; 8];
    bytes.extend_from_slice(&[1, 2, 3, 4]);
    let mut src = DualFloatTupleStdin::new(bytes);
    assert_eq!(src.next(), TupleRead::Pair(0, 0));
    assert_eq!(src.next(), TupleRead::Truncated);
}

#[test]
fn many_pairs_in_order() {
    let mut bytes = Vec::new();
    for i in 0..10u32 {
        bytes.extend_from_slice(&(2 * i).to_le_bytes());
        bytes.extend_from_slice(&(2 * i + 1).to_le_bytes());
    }
    let mut src = DualFloatTupleStdin::new(bytes);
    for i in 0..10u32 {
        assert_eq!(src.next(), TupleRead::Pair(2 * i, 2 * i + 1));
    }
    assert_eq!(src.next(), TupleRead::EndOfStream);
}
