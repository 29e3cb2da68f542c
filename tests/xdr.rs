use vxi11_rpc::xdr::{copy_bytes, CodecError, Packer, Unpacker};

fn unpacker_of(bytes: &[u8]) -> Unpacker {
    let mut u = Unpacker::new();
    u.reset(bytes);
    u
}

#[test]
fn u32_is_big_endian() {
    let mut p = Packer::new();
    p.pack_u32(0x0102_0304);
    assert_eq!(p.get_buf(), vec![1, 2, 3, 4]);
}

#[test]
fn i32_negative_encoding() {
    let mut p = Packer::new();
    p.pack_i32(-2);
    assert_eq!(p.get_buf(), vec![0xff, 0xff, 0xff, 0xfe]);
}

#[test]
fn bool_encodes_as_one_or_zero() {
    let mut p = Packer::new();
    p.pack_bool(true);
    p.pack_bool(false);
    assert_eq!(p.get_buf(), vec![0, 0, 0, 1, 0, 0, 0, 0]);
}

#[test]
fn scalar_round_trip() {
    for v in [0u32, 1, 0x7fff_ffff, 0x8000_0000, u32::MAX, 0x0607af] {
        let mut p = Packer::new();
        p.pack_u32(v);
        let mut u = unpacker_of(&p.get_buf());
        assert_eq!(u.unpack_u32(), Ok(v));
        assert!(u.all_data_consumed());
    }
    for v in [0i32, 1, -1, i32::MIN, i32::MAX, 3333] {
        let mut p = Packer::new();
        p.pack_i32(v);
        p.pack_enum(v);
        let mut u = unpacker_of(&p.get_buf());
        assert_eq!(u.unpack_i32(), Ok(v));
        assert_eq!(u.unpack_enum(), Ok(v));
        assert!(u.all_data_consumed());
    }
    for b in [true, false] {
        let mut p = Packer::new();
        p.pack_bool(b);
        let mut u = unpacker_of(&p.get_buf());
        assert_eq!(u.unpack_bool(), Ok(b));
        assert!(u.all_data_consumed());
    }
}

#[test]
fn unpack_bool_rejects_other_values() {
    let mut u = unpacker_of(&[0, 0, 0, 2]);
    assert_eq!(u.unpack_bool(), Err(CodecError::InvalidBool(2)));
    assert_eq!(u.get_remaining_bytes(), vec![0, 0, 0, 2]);
}

#[test]
fn unpack_past_end_is_eof() {
    let mut u = unpacker_of(&[0, 0, 1]);
    assert_eq!(u.unpack_u32(), Err(CodecError::UnexpectedEof));
    assert_eq!(u.unpack_i32(), Err(CodecError::UnexpectedEof));
    let mut e = Unpacker::new();
    assert_eq!(e.unpack_bool(), Err(CodecError::UnexpectedEof));
}

#[test]
fn opaque_padding_law() {
    for n in [0usize, 1, 2, 3, 4, 5, 7, 8, 1000, 1001] {
        let data = vec![0xabu8; n];
        let mut p = Packer::new();
        p.pack_variable_len_opaque(&data).unwrap();
        let out = p.get_buf();
        assert_eq!(out.len(), 4 + n + ((4 - n % 4) % 4));
        assert_eq!(out.len() % 4, 0);
        assert_eq!(&out[0..4], &(n as u32).to_be_bytes());
        assert!(out[4 + n..].iter().all(|b| *b == 0));
    }
}

#[test]
fn opaque_exact_bytes() {
    let mut p = Packer::new();
    p.pack_variable_len_opaque(b"abcde").unwrap();
    assert_eq!(p.get_buf(), vec![0, 0, 0, 5, b'a', b'b', b'c', b'd', b'e', 0, 0, 0]);
}

#[test]
fn opaque_round_trip() {
    for n in [0usize, 1, 3, 4, 5, 1000] {
        let data: Vec<u8> = (0..n).map(|i| (i * 7 + 1) as u8).collect();
        let mut p = Packer::new();
        p.pack_variable_len_opaque(&data).unwrap();
        p.pack_u32(42);
        let mut u = unpacker_of(&p.get_buf());
        assert_eq!(u.unpack_variable_len_opaque(), Ok(data));
        assert_eq!(u.unpack_u32(), Ok(42));
        assert!(u.all_data_consumed());
    }
}

#[test]
fn opaque_truncated_is_eof_and_consumes_nothing() {
    let bytes = [0, 0, 0, 5, 1, 2, 3, 4, 5, 0, 0];
    let mut u = unpacker_of(&bytes);
    assert_eq!(u.unpack_variable_len_opaque(), Err(CodecError::UnexpectedEof));
    assert_eq!(u.get_remaining_bytes(), bytes.to_vec());
}

#[test]
fn drop_requires_alignment() {
    let mut u = unpacker_of(&[1, 2, 3, 4, 5, 6, 7, 8]);
    assert_eq!(u.drop(3), Err(CodecError::Misaligned));
    assert_eq!(u.drop(12), Err(CodecError::UnexpectedEof));
    assert_eq!(u.drop(4), Ok(()));
    assert_eq!(u.get_remaining_bytes(), vec![5, 6, 7, 8]);
}

#[test]
fn peek_does_not_consume() {
    let u = unpacker_of(&[0, 0, 0, 1]);
    assert_eq!(u.peek(3), Ok(1));
    assert_eq!(u.peek(4), Err(CodecError::UnexpectedEof));
    assert_eq!(u.get_remaining_bytes(), vec![0, 0, 0, 1]);
}

#[test]
fn reset_clears_packer_and_unpacker() {
    let mut p = Packer::new();
    p.pack_u32(7);
    p.reset();
    assert!(p.get_buf().is_empty());
    let mut u = unpacker_of(&[1, 2, 3, 4]);
    assert!(!u.all_data_consumed());
    u.reset(&[]);
    assert!(u.all_data_consumed());
}

#[test]
fn copy_bytes_copies() {
    assert_eq!(copy_bytes(&[9, 8, 7]), vec![9, 8, 7]);
}
