use doggo::descriptor::{check_ident, text_eq};
use doggo::{Builder, Cardinality, GenError, MethodDescriptor, ServiceDescriptor, ServiceGen};

fn method(name: &str, proto: &str, input: &str, output: &str, cs: bool, ss: bool) -> MethodDescriptor {
    MethodDescriptor::new(
        name.to_string(),
        proto.to_string(),
        input.to_string(),
        output.to_string(),
        cs,
        ss,
    )
}

const EXPECTED: &str = r##"/// Request kinds of the service, one per method.
#[derive(Debug, Clone, PartialEq)]
pub enum Requests {
    GetSingleEntry(GetSingleEntryRequest),
    Record,
}

pub mod server {
    use super::*;
    use prost::Message;

    /// Operations that an application implements to serve the service.
    pub trait Replication {
        fn get_single_entry(&mut self, request: GetSingleEntryRequest) -> Result<GetEntriesResponse, doggo::Status>;
        fn record(&mut self, request: Vec<Result<Point, doggo::Status>>) -> Result<Summary, doggo::Status>;
    }

    fn decode_one<M: Message + Default>(bytes: &[u8]) -> Result<M, doggo::Status> {
        M::decode(bytes).map_err(|_| doggo::Status::RequestDecodeError)
    }

    fn decode_all<M: Message + Default>(
        inputs: Vec<Result<Vec<u8>, doggo::Status>>,
    ) -> Vec<Result<M, doggo::Status>> {
        inputs.into_iter().map(|i| i.and_then(|b| decode_one::<M>(&b))).collect()
    }

    impl Requests {
        /// Decodes the request for the method with wire tag `method`: a tag that names
        /// no method, or an input that cannot be decoded, is a decode error.
        pub fn decode(method: &str, input: &[u8]) -> Result<Requests, doggo::Status> {
            match method {
                "GetSingleEntry" => decode_one::<GetSingleEntryRequest>(input).map(Requests::GetSingleEntry),
                "Record" => Ok(Requests::Record),
                _ => Err(doggo::Status::RequestDecodeError),
            }
        }
    }

    /// Routes requests to an implementation of the operations.
    pub struct ReplicationServer<T: Replication> {
        pub service: T,
    }

    impl<T: Replication> ReplicationServer<T> {
        pub fn new(service: T) -> Self {
            Self { service }
        }
    }

    impl<T: Replication> doggo::Handler for ReplicationServer<T> {
        fn unary(&mut self, method: &str, input: Vec<u8>) -> Result<Vec<u8>, doggo::Status> {
            match Requests::decode(method, &input)? {
                Requests::GetSingleEntry(request) => self.service.get_single_entry(request).map(|r| r.encode_to_vec()),
                _ => Err(doggo::Status::Unimplemented),
            }
        }

        fn client_streaming(
            &mut self,
            method: &str,
            inputs: Vec<Result<Vec<u8>, doggo::Status>>,
        ) -> Result<Vec<u8>, doggo::Status> {
            match Requests::decode(method, &[])? {
                Requests::Record => self.service.record(decode_all::<Point>(inputs)).map(|r| r.encode_to_vec()),
                _ => Err(doggo::Status::Unimplemented),
            }
        }

        fn server_streaming(&mut self, method: &str, input: Vec<u8>) -> Result<Vec<Vec<u8>>, doggo::Status> {
            match Requests::decode(method, &input)? {
                _ => Err(doggo::Status::Unimplemented),
            }
        }

        fn bidirectional(
            &mut self,
            method: &str,
            inputs: Vec<Result<Vec<u8>, doggo::Status>>,
        ) -> Result<Vec<Vec<u8>>, doggo::Status> {
            match Requests::decode(method, &[])? {
                _ => Err(doggo::Status::Unimplemented),
            }
        }
    }
}
"##;

#[test]
fn generates_enum_trait_and_dispatcher() {
    let service = ServiceDescriptor::new(
        "Replication".to_string(),
        vec![
            method("get_single_entry", "GetSingleEntry", "GetSingleEntryRequest", "GetEntriesResponse", false, false),
            method("record", "Record", "Point", "Summary", true, false),
        ],
    );
    let mut generator = ServiceGen::new();
    let mut buf = String::from("// head\n");
    assert_eq!(generator.generate(&service, &mut buf), Ok(()));
    assert_eq!(buf, format!("// head\n{}", EXPECTED));
}

#[test]
fn generates_streaming_shapes() {
    let service = ServiceDescriptor::new(
        "Feed".to_string(),
        vec![
            method("list", "List", "Rect", "Feature", false, true),
            method("chat", "Chat", "Note", "Note", true, true),
        ],
    );
    let mut buf = String::new();
    assert_eq!(Builder::default().service_generator().generate(&service, &mut buf), Ok(()));
    assert!(buf.contains("        fn list(&mut self, request: Rect) -> Result<Vec<Feature>, doggo::Status>;\n"));
    assert!(buf.contains(
        "        fn chat(&mut self, request: Vec<Result<Note, doggo::Status>>) -> Result<Vec<Note>, doggo::Status>;\n"
    ));
    assert!(buf.contains(
        "                Requests::List(request) => self.service.list(request).map(|rs| rs.iter().map(|r| r.encode_to_vec()).collect()),\n"
    ));
    assert!(buf.contains(
        "                Requests::Chat => self.service.chat(decode_all::<Note>(inputs)).map(|rs| rs.iter().map(|r| r.encode_to_vec()).collect()),\n"
    ));
    assert!(buf.contains("pub struct FeedServer<T: Feed> {"));
    assert!(buf.contains("pub enum Requests {\n    List(Rect),\n    Chat,\n}\n"));
    assert!(buf.contains("                \"List\" => decode_one::<Rect>(input).map(Requests::List),\n"));
    assert!(buf.contains("                \"Chat\" => Ok(Requests::Chat),\n"));
}

#[test]
fn generates_for_service_without_methods() {
    let service = ServiceDescriptor::new("Empty".to_string(), vec![]);
    let mut buf = String::new();
    assert_eq!(ServiceGen::new().generate(&service, &mut buf), Ok(()));
    assert!(buf.starts_with("/// Request kinds of the service, one per method.\n#[derive(Debug, Clone, PartialEq)]\npub enum Requests {\n}\n"));
    assert!(buf.ends_with("    }\n}\n"));
}

#[test]
fn refuses_type_that_is_not_an_identifier() {
    let service = ServiceDescriptor::new(
        "Replication".to_string(),
        vec![method("get", "Get", "super::Request", "Response", false, false)],
    );
    let mut buf = String::from("kept");
    assert_eq!(ServiceGen::new().generate(&service, &mut buf), Err(GenError::InvalidName));
    assert_eq!(buf, "kept");
}

#[test]
fn refuses_invalid_service_name() {
    let service = ServiceDescriptor::new("1Replication".to_string(), vec![]);
    let mut buf = String::new();
    assert_eq!(ServiceGen::new().generate(&service, &mut buf), Err(GenError::InvalidName));
    assert_eq!(buf, "");
}

#[test]
fn refuses_duplicate_tags() {
    let service = ServiceDescriptor::new(
        "Replication".to_string(),
        vec![
            method("get_a", "Get", "A", "B", false, false),
            method("get_b", "Get", "A", "B", false, false),
        ],
    );
    let mut buf = String::new();
    assert_eq!(ServiceGen::new().generate(&service, &mut buf), Err(GenError::DuplicateMethod));
    assert_eq!(buf, "");
    assert_eq!(service.check(), Err(GenError::DuplicateMethod));
}

#[test]
fn refuses_duplicate_operation_names() {
    let service = ServiceDescriptor::new(
        "Replication".to_string(),
        vec![
            method("get", "GetA", "A", "B", false, false),
            method("get", "GetB", "A", "B", false, false),
        ],
    );
    assert_eq!(service.check(), Err(GenError::DuplicateMethod));
}

#[test]
fn identifiers() {
    assert!(check_ident("GetSingleEntry"));
    assert!(check_ident("_private"));
    assert!(check_ident("get_single_entry2"));
    assert!(!check_ident(""));
    assert!(!check_ident("_"));
    assert!(!check_ident("2fast"));
    assert!(!check_ident("a-b"));
    assert!(!check_ident("a::b"));
    assert!(!check_ident("caf\u{e9}"));
}

#[test]
fn text_equality() {
    assert!(text_eq("abc", "abc"));
    assert!(!text_eq("abc", "abd"));
    assert!(!text_eq("abc", "ab"));
    assert!(text_eq("", ""));
}

#[test]
fn cardinalities() {
    assert_eq!(method("a", "A", "I", "O", false, false).cardinality(), Cardinality::Unary);
    assert_eq!(method("a", "A", "I", "O", true, false).cardinality(), Cardinality::ClientStreaming);
    assert_eq!(method("a", "A", "I", "O", false, true).cardinality(), Cardinality::ServerStreaming);
    assert_eq!(method("a", "A", "I", "O", true, true).cardinality(), Cardinality::Bidirectional);
}
