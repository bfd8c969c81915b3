use welds_connections::decode::TryFromTursoValue;
use welds_connections::error::Error;
use welds_connections::param::TursoParam;
use welds_connections::uuids::Uuid;
use welds_connections::value::TursoValue;

const BYTES: [u8; 16] = [0x67, 0xe5, 0x50, 0x44, 0x10, 0xb1, 0x42, 0x6f, 0x92, 0x47, 0xbb, 0x68, 0x0e, 0x5f, 0xe0, 0xc8];

#[test]
fn uuid_written_as_hyphenated_text() {
    let u = Uuid::from_bytes(BYTES);
    assert_eq!(u.to_turso_value(), TursoValue::Text("67e55044-10b1-426f-9247-bb680e5fe0c8".to_string()));
}

#[test]
fn uuid_read_from_text() {
    let u = Uuid::try_from_turso(&TursoValue::Text("67E55044-10B1-426F-9247-BB680E5FE0C8".to_string())).unwrap();
    assert_eq!(u.bytes, BYTES);
    let u = Uuid::try_from_turso(&TursoValue::Text("67e5504410b1426f9247bb680e5fe0c8".to_string())).unwrap();
    assert_eq!(u.bytes, BYTES);
    let back = Uuid::try_from_turso(&Uuid::from_bytes(BYTES).to_turso_value()).unwrap();
    assert_eq!(back.bytes, BYTES);
}

#[test]
fn uuid_bad_text() {
    let e = Uuid::try_from_turso(&TursoValue::Text("nope".to_string())).map(|u| u.bytes);
    match e {
        Err(Error::ConversionFailure(m)) => {
            assert!(m.starts_with("could not parse Uuid from \"nope\": "));
            assert!(m.len() > "could not parse Uuid from \"nope\": ".len());
        }
        other => panic!("unexpected {:?}", other),
    }
}

#[test]
fn uuid_from_blob() {
    let u = Uuid::try_from_turso(&TursoValue::Blob(BYTES.to_vec())).unwrap();
    assert_eq!(u.bytes, BYTES);
    assert_eq!(
        Uuid::try_from_turso(&TursoValue::Blob(vec![1, 2, 3])).map(|u| u.bytes),
        Err(Error::ConversionFailure("cannot convert BLOB to Uuid".to_string()))
    );
    assert_eq!(
        Uuid::try_from_turso(&TursoValue::Integer(1)).map(|u| u.bytes),
        Err(Error::ConversionFailure("cannot convert INTEGER to Uuid".to_string()))
    );
    assert_eq!(
        Uuid::try_from_turso(&TursoValue::Null).map(|u| u.bytes),
        Err(Error::UnexpectedNoneInColumn("Uuid".to_string()))
    );
}

#[test]
fn uuid_from_slice() {
    assert!(Uuid::from_slice(&BYTES[..15]).is_none());
    assert_eq!(Uuid::from_slice(&BYTES).unwrap().bytes, BYTES);
}

#[test]
fn uuid_text_round_trip() {
    for bytes in [[0u8; 16], [0xffu8; 16], BYTES, [0, 1, 2, 3, 4, 5, 6, 7, 8, 9, 10, 11, 12, 13, 14, 15]] {
        let back = Uuid::try_from_turso(&Uuid::from_bytes(bytes).to_turso_value()).unwrap();
        assert_eq!(back.bytes, bytes);
    }
}
