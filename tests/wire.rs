use doggo::wire::{decode_frame, encode_end, encode_reply};
use doggo::{Request, Status};

const ALL: [Status; 5] = [
    Status::RequestDecodeError,
    Status::Unimplemented,
    Status::InvalidArgument,
    Status::NotFound,
    Status::Internal,
];

#[test]
fn status_names_round_trip() {
    for s in ALL {
        assert_eq!(Status::from_name(s.name()), Some(s));
    }
    assert_eq!(Status::RequestDecodeError.name(), "RequestDecodeError");
    assert_eq!(Status::from_name("requestdecodeerror"), None);
    assert_eq!(Status::from_name(""), None);
}

#[test]
fn request_envelope_is_a_json_pair() {
    let req = Request::new("GetSingleEntry".to_string(), vec![16, 23]);
    assert_eq!(req.encode(), b"[\"GetSingleEntry\",[16,23]]".to_vec());
}

#[test]
fn request_envelope_round_trip() {
    let req = Request::new("Tag with \"quotes\"".to_string(), vec![0, 255, 7]);
    let back = Request::decode(&req.encode()).unwrap();
    assert_eq!(back.path, "Tag with \"quotes\"");
    assert_eq!(back.data, vec![0, 255, 7]);
}

#[test]
fn request_envelope_rejects_malformed() {
    assert!(Request::decode(&[]).is_none());
    assert!(Request::decode(&[0xFF]).is_none());
    assert!(Request::decode(b"[\"GetSingleEntry\",[16,").is_none());
    assert!(Request::decode(b"\"GetSingleEntry\"").is_none());
    assert!(Request::decode(b"[\"GetSingleEntry\",[256]]").is_none());
}

#[test]
fn reply_documents() {
    assert_eq!(encode_reply(&Ok(vec![1, 2, 3])), b"{\"Ok\":[1,2,3]}".to_vec());
    assert_eq!(encode_reply(&Ok(vec![])), b"{\"Ok\":[]}".to_vec());
    assert_eq!(
        encode_reply(&Err(Status::RequestDecodeError)),
        b"{\"Err\":\"RequestDecodeError\"}".to_vec()
    );
    assert_eq!(encode_end(), b"null".to_vec());
}

#[test]
fn reply_round_trip() {
    let ok: Result<Vec<u8>, Status> = Ok(vec![9, 8, 7, 0]);
    assert_eq!(decode_frame(&encode_reply(&ok)), Some(Some(ok)));
    for s in ALL {
        let err: Result<Vec<u8>, Status> = Err(s);
        assert_eq!(decode_frame(&encode_reply(&err)), Some(Some(err)));
    }
    assert_eq!(decode_frame(&encode_end()), Some(None));
}

#[test]
fn frame_rejects_unknown_status_and_garbage() {
    assert_eq!(decode_frame(b"{\"Err\":\"Teapot\"}"), None);
    assert_eq!(decode_frame(&[0xFF]), None);
    assert_eq!(decode_frame(b"{\"Ok\":[1,"), None);
}
