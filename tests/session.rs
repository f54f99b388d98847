use doggo::engine::{distinct_tags, lookup, read_element, route, Route};
use doggo::wire::{decode_frame, encode_end, encode_reply};
use doggo::{Handler, MethodDescriptor, MyReplication, QuicheServer, Request, Session, Status};

fn method(name: &str, proto: &str, cs: bool, ss: bool) -> MethodDescriptor {
    MethodDescriptor::new(name.to_string(), proto.to_string(), "In".to_string(), "Out".to_string(), cs, ss)
}

fn methods() -> Vec<MethodDescriptor> {
    vec![
        method("get_single_entry", "GetSingleEntry", false, false),
        method("record", "Record", true, false),
        method("list", "List", false, true),
        method("chat", "Chat", true, true),
    ]
}

fn envelope(tag: &str, payload: &[u8]) -> Vec<u8> {
    Request::new(tag.to_string(), payload.to_vec()).encode()
}

fn element(payload: &[u8]) -> Vec<u8> {
    encode_reply(&Ok(payload.to_vec()))
}

/// Records every invocation; answers with the input echoed, or the element count.
#[derive(Default)]
struct Recorder {
    calls: Vec<(String, Vec<Result<Vec<u8>, Status>>)>,
}

impl Handler for Recorder {
    fn unary(&mut self, method: &str, input: Vec<u8>) -> Result<Vec<u8>, Status> {
        self.calls.push((method.to_string(), vec![Ok(input.clone())]));
        if input.is_empty() {
            Err(Status::InvalidArgument)
        } else {
            Ok(input)
        }
    }

    fn client_streaming(&mut self, method: &str, inputs: Vec<Result<Vec<u8>, Status>>) -> Result<Vec<u8>, Status> {
        let n = inputs.len() as u8;
        self.calls.push((method.to_string(), inputs));
        Ok(vec![n])
    }

    fn server_streaming(&mut self, method: &str, input: Vec<u8>) -> Result<Vec<Vec<u8>>, Status> {
        self.calls.push((method.to_string(), vec![Ok(input.clone())]));
        if input.is_empty() {
            Err(Status::NotFound)
        } else {
            Ok(input.iter().map(|b| vec![*b]).collect())
        }
    }

    fn bidirectional(&mut self, method: &str, inputs: Vec<Result<Vec<u8>, Status>>) -> Result<Vec<Vec<u8>>, Status> {
        let out = inputs.iter().map(|r| match r {
            Ok(v) => v.clone(),
            Err(_) => vec![],
        }).collect();
        self.calls.push((method.to_string(), inputs));
        Ok(out)
    }
}

#[test]
fn unary_get_single_entry_scenario() {
    let mut session = Session::new(MyReplication::default(), vec![method(
        "get_single_entry",
        "GetSingleEntry",
        false,
        false,
    )]);
    // GetSingleEntryRequest { log_id: 23, sequence: 3434 } in its binary encoding.
    let out = session.handle(&envelope("GetSingleEntry", &[0x10, 0x17, 0x18, 0xEA, 0x1A]));
    assert_eq!(out, vec![b"{\"Ok\":[]}".to_vec()]);
    // An empty GetEntriesResponse has an empty encoding.
    assert_eq!(decode_frame(&out[0]), Some(Some(Ok(vec![]))));
}

#[test]
fn invalid_byte_gets_decode_error() {
    let mut session = Session::new(Recorder::default(), methods());
    let out = session.handle(&[0xFF]);
    assert_eq!(out, vec![b"{\"Err\":\"RequestDecodeError\"}".to_vec()]);
    assert!(session.handler.calls.is_empty());
}

#[test]
fn malformed_requests_get_decode_error() {
    let mut session = Session::new(Recorder::default(), methods());
    let expected = vec![b"{\"Err\":\"RequestDecodeError\"}".to_vec()];
    let full = envelope("GetSingleEntry", &[1, 2, 3]);
    assert_eq!(session.handle(&full[..full.len() - 3]), expected);
    assert_eq!(session.handle(&envelope("NoSuchMethod", &[1])), expected);
    assert_eq!(session.handle(&[]), expected);
    assert_eq!(session.handle(b"{\"GetSingleEntry\":[1]}"), expected);
    assert!(session.handler.calls.is_empty());
    assert!(session.pending.is_none());
}

#[test]
fn unary_reply_is_decodable() {
    let mut session = Session::new(Recorder::default(), methods());
    let out = session.handle(&envelope("GetSingleEntry", &[4, 5]));
    assert_eq!(out.len(), 1);
    assert_eq!(decode_frame(&out[0]), Some(Some(Ok(vec![4, 5]))));
    let out = session.handle(&envelope("GetSingleEntry", &[]));
    assert_eq!(decode_frame(&out[0]), Some(Some(Err(Status::InvalidArgument))));
    assert_eq!(session.handler.calls.len(), 2);
}

#[test]
fn replies_follow_request_order() {
    let mut session = Session::new(Recorder::default(), methods());
    let requests = vec![
        envelope("GetSingleEntry", &[1]),
        vec![0xFF],
        envelope("GetSingleEntry", &[2]),
        envelope("GetSingleEntry", &[3]),
    ];
    let mut sent = Vec::new();
    for r in &requests {
        sent.extend(session.handle(r));
    }
    assert_eq!(
        sent,
        vec![
            encode_reply(&Ok(vec![1])),
            encode_reply(&Err(Status::RequestDecodeError)),
            encode_reply(&Ok(vec![2])),
            encode_reply(&Ok(vec![3])),
        ]
    );
}

#[test]
fn client_stream_with_one_bad_frame() {
    let mut session = Session::new(Recorder::default(), methods());
    assert!(session.handle(&envelope("Record", &[])).is_empty());
    assert!(session.handle(&element(&[1])).is_empty());
    assert!(session.handle(&[0xFF, 0x00]).is_empty());
    assert!(session.handle(&element(&[3])).is_empty());
    assert!(session.handler.calls.is_empty());
    let out = session.handle(&encode_end());
    assert_eq!(out, vec![encode_reply(&Ok(vec![3]))]);
    assert_eq!(
        session.handler.calls,
        vec![("Record".to_string(), vec![Ok(vec![1]), Err(Status::RequestDecodeError), Ok(vec![3])])]
    );
    assert!(session.pending.is_none());
}

#[test]
fn client_stream_passes_sent_errors_through() {
    let mut session = Session::new(Recorder::default(), methods());
    session.handle(&envelope("Record", &[]));
    session.handle(&encode_reply(&Err(Status::Internal)));
    session.handle(&encode_end());
    assert_eq!(session.handler.calls, vec![("Record".to_string(), vec![Err(Status::Internal)])]);
}

#[test]
fn empty_client_stream() {
    let mut session = Session::new(Recorder::default(), methods());
    session.handle(&envelope("Record", &[]));
    let out = session.handle(&encode_end());
    assert_eq!(out, vec![encode_reply(&Ok(vec![0]))]);
}

#[test]
fn server_stream_frames() {
    let mut session = Session::new(Recorder::default(), methods());
    let out = session.handle(&envelope("List", &[7, 8]));
    assert_eq!(out, vec![encode_reply(&Ok(vec![7])), encode_reply(&Ok(vec![8])), b"null".to_vec()]);
    let out = session.handle(&envelope("List", &[]));
    assert_eq!(out, vec![b"{\"Err\":\"NotFound\"}".to_vec(), b"null".to_vec()]);
}

#[test]
fn bidirectional_stream_frames() {
    let mut session = Session::new(Recorder::default(), methods());
    session.handle(&envelope("Chat", &[]));
    session.handle(&element(&[5]));
    session.handle(&element(&[6, 6]));
    let out = session.handle(&encode_end());
    assert_eq!(out, vec![encode_reply(&Ok(vec![5])), encode_reply(&Ok(vec![6, 6])), encode_end()]);
}

#[test]
fn closing_without_messages_invokes_nothing() {
    let mut session = Session::new(Recorder::default(), methods());
    assert_eq!(session.on_closed(), vec![b"{\"Err\":\"RequestDecodeError\"}".to_vec()]);
    assert!(session.handler.calls.is_empty());
    assert!(session.pending.is_none());
}

#[test]
fn closing_drops_open_stream() {
    let mut session = Session::new(Recorder::default(), methods());
    session.handle(&envelope("Record", &[]));
    session.handle(&element(&[1]));
    assert!(session.on_closed().is_empty());
    assert!(session.handler.calls.is_empty());
    assert!(session.pending.is_none());
    let out = session.handle(&envelope("GetSingleEntry", &[9]));
    assert_eq!(out, vec![encode_reply(&Ok(vec![9]))]);
}

#[test]
fn routing_and_lookup() {
    let ms = methods();
    assert_eq!(lookup(&ms, "List"), Some(2));
    assert_eq!(lookup(&ms, "list"), None);
    match route(&ms, &envelope("Chat", &[1, 2])) {
        Route::Open { method, input } => {
            assert_eq!(method, 3);
            assert_eq!(input, vec![1, 2]);
        }
        Route::Reject => panic!("expected a route"),
    }
    assert!(matches!(route(&ms, b"[1,2]"), Route::Reject));
}

#[test]
fn stream_elements() {
    assert_eq!(read_element(&element(&[1])), Some(Ok(vec![1])));
    assert_eq!(read_element(&encode_end()), None);
    assert_eq!(read_element(b"garbage"), Some(Err(Status::RequestDecodeError)));
}

#[test]
fn sample_replication_answers() {
    let mut service = MyReplication::default();
    assert_eq!(service.unary("GetAllEntriesByAuthors", vec![]), Ok(vec![]));
    assert_eq!(service.unary("GetLogHeightDeltas", vec![1]), Ok(vec![]));
    assert_eq!(service.unary("SetAuthorAliases", vec![]), Err(Status::Unimplemented));
    assert_eq!(service.server_streaming("NewLogHeightsStream", vec![]), Err(Status::Unimplemented));
}

#[test]
fn quiche_server_owns_service() {
    let server = QuicheServer::new(7u32);
    assert_eq!(server.service, 7);
}

#[test]
fn distinct_tags_are_checked() {
    assert!(distinct_tags(&methods()));
    let mut ms = methods();
    ms.push(method("other", "List", false, false));
    assert!(!distinct_tags(&ms));
    let mut session = Session::new(Recorder::default(), methods());
    assert!(session.ready());
    session.handle(&envelope("Record", &[]));
    assert!(session.ready());
}
