use rapi::codec::{decode, encode, DecodeError, WIRE_LEN};
use rapi::req::{ReqType, Request};

const KINDS: [ReqType; 6] = [
    ReqType::Unregister,
    ReqType::Register,
    ReqType::Stop,
    ReqType::Cont,
    ReqType::CommBegin,
    ReqType::CommEnd,
];

#[test]
fn round_trip_every_kind_and_pid() {
    for kind in KINDS {
        for pid in [0, 1, 42, -1, 65536, i32::MIN, i32::MAX] {
            let r = Request { req: kind, pid };
            let bytes = encode(&r);
            assert_eq!(bytes.len(), WIRE_LEN);
            assert_eq!(decode(&bytes), Ok(r));
        }
    }
}

#[test]
fn encode_writes_little_endian_ordinal_then_pid() {
    let b = encode(&Request { req: ReqType::Register, pid: 42 });
    assert_eq!(b, vec![1, 0, 0, 0, 42, 0, 0, 0]);
    let b = encode(&Request { req: ReqType::CommEnd, pid: -1 });
    assert_eq!(b, vec![5, 0, 0, 0, 255, 255, 255, 255]);
    let b = encode(&Request { req: ReqType::Unregister, pid: 0x01020304 });
    assert_eq!(b, vec![0, 0, 0, 0, 4, 3, 2, 1]);
}

#[test]
fn decode_reads_fields() {
    let r = decode(&[3, 0, 0, 0, 0x39, 0x30, 0, 0]);
    assert_eq!(r, Ok(Request { req: ReqType::Cont, pid: 12345 }));
    let r = decode(&[0, 0, 0, 0, 0, 0, 0, 0x80]);
    assert_eq!(r, Ok(Request { req: ReqType::Unregister, pid: i32::MIN }));
}

#[test]
fn decode_rejects_wrong_length() {
    assert_eq!(decode(&[]), Err(DecodeError::WrongLength { len: 0 }));
    assert_eq!(decode(&[1, 0, 0, 0, 42, 0, 0]), Err(DecodeError::WrongLength { len: 7 }));
    assert_eq!(
        decode(&[1, 0, 0, 0, 42, 0, 0, 0, 0]),
        Err(DecodeError::WrongLength { len: 9 })
    );
}

#[test]
fn decode_rejects_unknown_kind() {
    assert_eq!(
        decode(&[6, 0, 0, 0, 0, 0, 0, 0]),
        Err(DecodeError::UnknownKind { ordinal: 6 })
    );
    assert_eq!(
        decode(&[0, 1, 0, 0, 0, 0, 0, 0]),
        Err(DecodeError::UnknownKind { ordinal: 256 })
    );
    assert_eq!(
        decode(&[255, 255, 255, 255, 0, 0, 0, 0]),
        Err(DecodeError::UnknownKind { ordinal: u32::MAX })
    );
}

#[test]
fn ordinals_match_the_wire() {
    for (i, kind) in KINDS.iter().enumerate() {
        assert_eq!(kind.ordinal(), i as u32);
        assert_eq!(ReqType::from_ordinal(i as u32), Some(*kind));
    }
    assert_eq!(ReqType::from_ordinal(6), None);
}
