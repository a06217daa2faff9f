use counter_program::state::STATE_LEN;
use counter_program::{decode_state, encode_state, write_state, CodecError, CounterAccount};

#[test]
fn encode_is_four_little_endian_bytes() {
    assert_eq!(STATE_LEN, 4);
    assert_eq!(encode_state(&CounterAccount { counter: 0 }), vec![0, 0, 0, 0]);
    assert_eq!(encode_state(&CounterAccount { counter: 1 }), vec![1, 0, 0, 0]);
    assert_eq!(encode_state(&CounterAccount { counter: 256 }), vec![0, 1, 0, 0]);
    assert_eq!(
        encode_state(&CounterAccount { counter: 0x0102_0304 }),
        vec![4, 3, 2, 1]
    );
    assert_eq!(
        encode_state(&CounterAccount { counter: u32::MAX }),
        vec![0xff, 0xff, 0xff, 0xff]
    );
}

#[test]
fn decode_reads_four_little_endian_bytes() {
    assert_eq!(decode_state(&[0, 0, 0, 0]), Ok(CounterAccount { counter: 0 }));
    assert_eq!(decode_state(&[5, 0, 0, 0]), Ok(CounterAccount { counter: 5 }));
    assert_eq!(
        decode_state(&[4, 3, 2, 1]),
        Ok(CounterAccount { counter: 0x0102_0304 })
    );
    assert_eq!(
        decode_state(&[0, 0, 0, 0x80]),
        Ok(CounterAccount { counter: 0x8000_0000 })
    );
    assert_eq!(
        decode_state(&[0xff, 0xff, 0xff, 0xff]),
        Ok(CounterAccount { counter: u32::MAX })
    );
}

#[test]
fn decode_looks_at_the_first_four_bytes_only() {
    assert_eq!(
        decode_state(&[1, 1, 0, 0, 9, 9, 9]),
        Ok(CounterAccount { counter: 257 })
    );
}

#[test]
fn decode_refuses_fewer_than_four_bytes() {
    assert_eq!(decode_state(&[]), Err(CodecError::UndersizedRegion));
    assert_eq!(decode_state(&[1]), Err(CodecError::UndersizedRegion));
    assert_eq!(decode_state(&[1, 2]), Err(CodecError::UndersizedRegion));
    assert_eq!(decode_state(&[1, 2, 3]), Err(CodecError::UndersizedRegion));
}

#[test]
fn encode_then_decode_gives_the_counter_back() {
    for counter in [
        0u32,
        1,
        255,
        256,
        65_535,
        65_536,
        0x00ff_ffff,
        0x0100_0000,
        0x1234_5678,
        0x7fff_ffff,
        0x8000_0000,
        u32::MAX - 1,
        u32::MAX,
    ] {
        let account = CounterAccount { counter };
        assert_eq!(decode_state(&encode_state(&account)), Ok(account));
    }
}

#[test]
fn decode_then_encode_gives_the_bytes_back() {
    for bytes in [[0u8, 0, 0, 0], [1, 2, 3, 4], [0xff, 0, 0xff, 0], [0xfe, 0xff, 0xff, 0xff]] {
        let account = decode_state(&bytes).unwrap();
        assert_eq!(encode_state(&account), bytes.to_vec());
    }
}

#[test]
fn write_overwrites_the_first_four_bytes_only() {
    let mut region = vec![0xaa; 7];
    write_state(&CounterAccount { counter: 0x0a0b_0c0d }, &mut region);
    assert_eq!(region, vec![0x0d, 0x0c, 0x0b, 0x0a, 0xaa, 0xaa, 0xaa]);
    assert_eq!(
        decode_state(&region),
        Ok(CounterAccount { counter: 0x0a0b_0c0d })
    );
}

#[test]
fn write_fills_a_region_of_exactly_four_bytes() {
    let mut region = vec![9u8, 9, 9, 9];
    write_state(&CounterAccount { counter: 3 }, &mut region);
    assert_eq!(region, vec![3, 0, 0, 0]);
}
