use vstd::prelude::*;
use crate::descriptor::{Cardinality, MethodDescriptor, MethodView, ServiceDescriptor, GenError, check_spec, methods_view};

verus! {

pub const ENUM_HEAD: &'static str = "/// Request kinds of the service, one per method.\n#[derive(Debug, Clone, PartialEq)]\npub enum Requests {\n";

pub const MOD_HEAD: &'static str = "}\n\npub mod server {\n    use super::*;\n    use prost::Message;\n\n    /// Operations that an application implements to serve the service.\n    pub trait ";

pub const HELPERS: &'static str = "    }\n\n    fn decode_one<M: Message + Default>(bytes: &[u8]) -> Result<M, doggo::Status> {\n        M::decode(bytes).map_err(|_| doggo::Status::RequestDecodeError)\n    }\n\n    fn decode_all<M: Message + Default>(\n        inputs: Vec<Result<Vec<u8>, doggo::Status>>,\n    ) -> Vec<Result<M, doggo::Status>> {\n        inputs.into_iter().map(|i| i.and_then(|b| decode_one::<M>(&b))).collect()\n    }\n\n    impl Requests {\n        /// Decodes the request for the method with wire tag `method`: a tag that names\n        /// no method, or an input that cannot be decoded, is a decode error.\n        pub fn decode(method: &str, input: &[u8]) -> Result<Requests, doggo::Status> {\n            match method {\n";

pub const DECODE_TAIL: &'static str = "                _ => Err(doggo::Status::RequestDecodeError),\n            }\n        }\n    }\n\n    /// Routes requests to an implementation of the operations.\n    pub struct ";

pub const STRUCT_BODY: &'static str = " {\n        pub service: T,\n    }\n\n    impl<T: ";

pub const NEW_BODY: &'static str = " {\n        pub fn new(service: T) -> Self {\n            Self { service }\n        }\n    }\n\n    impl<T: ";

pub const UNARY_HEAD: &'static str = " {\n        fn unary(&mut self, method: &str, input: Vec<u8>) -> Result<Vec<u8>, doggo::Status> {\n            match Requests::decode(method, &input)? {\n";

pub const CLIENT_HEAD: &'static str = "\n        fn client_streaming(\n            &mut self,\n            method: &str,\n            inputs: Vec<Result<Vec<u8>, doggo::Status>>,\n        ) -> Result<Vec<u8>, doggo::Status> {\n            match Requests::decode(method, &[])? {\n";

pub const SERVER_HEAD: &'static str = "\n        fn server_streaming(&mut self, method: &str, input: Vec<u8>) -> Result<Vec<Vec<u8>>, doggo::Status> {\n            match Requests::decode(method, &input)? {\n";

pub const BIDI_HEAD: &'static str = "\n        fn bidirectional(\n            &mut self,\n            method: &str,\n            inputs: Vec<Result<Vec<u8>, doggo::Status>>,\n        ) -> Result<Vec<Vec<u8>>, doggo::Status> {\n            match Requests::decode(method, &[])? {\n";

pub const ARM_TAIL: &'static str = "                _ => Err(doggo::Status::Unimplemented),\n            }\n        }\n";

pub const END: &'static str = "    }\n}\n";

/// The part of the generated code that one method contributes to.
#[derive(Debug, Clone, Copy, PartialEq, Eq, Structural)]
pub enum Part {
    /// Its variant in the request-kind enum.
    Variant,
    /// Its arm in the decoder of request kinds.
    Decode,
    /// Its operation in the capability trait.
    Operation,
    /// Its arm in the dispatcher of the given cardinality.
    Arm(Cardinality),
}

/// Type of the `request` parameter of the method's operation.
pub open spec fn input_shape(m: MethodView) -> Seq<char> {
    if m.client_streaming {
        "Vec<Result<"@ + m.input_type + ", doggo::Status>>"@
    } else {
        m.input_type
    }
}

/// Type of what the method's operation returns on success.
pub open spec fn output_shape(m: MethodView) -> Seq<char> {
    if m.server_streaming {
        "Vec<"@ + m.output_type + ">"@
    } else {
        m.output_type
    }
}

/// The pattern of the method's request kind and the call of its operation, in its
/// dispatcher arm.
pub open spec fn arm_call(m: MethodView) -> Seq<char> {
    if m.client_streaming {
        " => self.service."@ + m.name + "(decode_all::<"@ + m.input_type + ">(inputs))"@
    } else {
        "(request) => self.service."@ + m.name + "(request)"@
    }
}

/// How the dispatcher arm encodes what the operation returned.
pub open spec fn arm_encode(m: MethodView) -> Seq<char> {
    if m.server_streaming {
        ".map(|rs| rs.iter().map(|r| r.encode_to_vec()).collect())"@
    } else {
        ".map(|r| r.encode_to_vec())"@
    }
}

/// The text that method `m` contributes to `part`.
pub open spec fn piece(part: Part, m: MethodView) -> Seq<char> {
    match part {
        Part::Variant => if m.client_streaming {
            "    "@ + m.proto_name + ",\n"@
        } else {
            "    "@ + m.proto_name + "("@ + m.input_type + "),\n"@
        },
        Part::Decode => if m.client_streaming {
            "                \""@ + m.proto_name + "\" => Ok(Requests::"@ + m.proto_name + "),\n"@
        } else {
            "                \""@ + m.proto_name + "\" => decode_one::<"@ + m.input_type + ">(input).map(Requests::"@
                + m.proto_name + "),\n"@
        },
        Part::Operation => "        fn "@ + m.name + "(&mut self, request: "@ + input_shape(m)
            + ") -> Result<"@ + output_shape(m) + ", doggo::Status>;\n"@,
        Part::Arm(k) => if m.cardinality() == k {
            "                Requests::"@ + m.proto_name + arm_call(m) + arm_encode(m) + ",\n"@
        } else {
            Seq::empty()
        },
    }
}

/// The texts that the methods contribute to `part`, in their order.
pub open spec fn pieces(part: Part, ms: Seq<MethodView>) -> Seq<char>
    decreases ms.len(),
{
    if ms.len() == 0 {
        Seq::empty()
    } else {
        pieces(part, ms.drop_last()) + piece(part, ms.last())
    }
}

/// The request-kind enum: a variant per method, holding the decoded input of a
/// method that takes one input; the inputs of a stream arrive later.
pub open spec fn enum_section(ms: Seq<MethodView>) -> Seq<char> {
    ENUM_HEAD@ + pieces(Part::Variant, ms)
}

/// The capability trait, the helpers that decode inputs, and the decoder of
/// request kinds.
pub open spec fn trait_section(name: Seq<char>, ms: Seq<MethodView>) -> Seq<char> {
    MOD_HEAD@ + name + " {\n"@ + pieces(Part::Operation, ms) + HELPERS@ + pieces(Part::Decode, ms)
        + DECODE_TAIL@
}

/// The server type that owns an implementation of the capability trait.
pub open spec fn server_section(name: Seq<char>) -> Seq<char> {
    name + "Server<T: "@ + name + ">"@ + STRUCT_BODY@ + name + "> "@ + name + "Server<T>"@ + NEW_BODY@
        + name + "> doggo::Handler for "@ + name + "Server<T>"@
}

/// The dispatcher: one routing function per cardinality, each matching on the
/// decoded request kind.
pub open spec fn dispatch_section(ms: Seq<MethodView>) -> Seq<char> {
    UNARY_HEAD@ + pieces(Part::Arm(Cardinality::Unary), ms) + ARM_TAIL@ + CLIENT_HEAD@ + pieces(
        Part::Arm(Cardinality::ClientStreaming),
        ms,
    ) + ARM_TAIL@ + SERVER_HEAD@ + pieces(Part::Arm(Cardinality::ServerStreaming), ms) + ARM_TAIL@
        + BIDI_HEAD@ + pieces(Part::Arm(Cardinality::Bidirectional), ms) + ARM_TAIL@ + END@
}

/// All the code generated for a service.
pub open spec fn service_code(name: Seq<char>, ms: Seq<MethodView>) -> Seq<char> {
    enum_section(ms) + trait_section(name, ms) + server_section(name) + dispatch_section(ms)
}

fn emit_input_shape(buf: &mut String, m: &MethodDescriptor)
    ensures
        final(buf)@ == old(buf)@ + input_shape(m@),
{
    if m.client_streaming {
        buf.append("Vec<Result<");
        buf.append(m.input_type.as_str());
        buf.append(", doggo::Status>>");
    } else {
        buf.append(m.input_type.as_str());
    }
    assert(buf@ =~= old(buf)@ + input_shape(m@));
}

fn emit_output_shape(buf: &mut String, m: &MethodDescriptor)
    ensures
        final(buf)@ == old(buf)@ + output_shape(m@),
{
    if m.server_streaming {
        buf.append("Vec<");
        buf.append(m.output_type.as_str());
        buf.append(">");
    } else {
        buf.append(m.output_type.as_str());
    }
    assert(buf@ =~= old(buf)@ + output_shape(m@));
}

fn emit_arm_call(buf: &mut String, m: &MethodDescriptor)
    ensures
        final(buf)@ == old(buf)@ + arm_call(m@),
{
    if m.client_streaming {
        buf.append(" => self.service.");
        buf.append(m.name.as_str());
        buf.append("(decode_all::<");
        buf.append(m.input_type.as_str());
        buf.append(">(inputs))");
    } else {
        buf.append("(request) => self.service.");
        buf.append(m.name.as_str());
        buf.append("(request)");
    }
    assert(buf@ =~= old(buf)@ + arm_call(m@));
}

fn emit_arm_encode(buf: &mut String, m: &MethodDescriptor)
    ensures
        final(buf)@ == old(buf)@ + arm_encode(m@),
{
    if m.server_streaming {
        buf.append(".map(|rs| rs.iter().map(|r| r.encode_to_vec()).collect())");
    } else {
        buf.append(".map(|r| r.encode_to_vec())");
    }
}

fn emit_piece(buf: &mut String, part: Part, m: &MethodDescriptor)
    ensures
        final(buf)@ == old(buf)@ + piece(part, m@),
{
    match part {
        Part::Variant => {
            buf.append("    ");
            buf.append(m.proto_name.as_str());
            if m.client_streaming {
                buf.append(",\n");
            } else {
                buf.append("(");
                buf.append(m.input_type.as_str());
                buf.append("),\n");
            }
        },
        Part::Decode => {
            buf.append("                \"");
            buf.append(m.proto_name.as_str());
            if m.client_streaming {
                buf.append("\" => Ok(Requests::");
            } else {
                buf.append("\" => decode_one::<");
                buf.append(m.input_type.as_str());
                buf.append(">(input).map(Requests::");
            }
            buf.append(m.proto_name.as_str());
            buf.append("),\n");
        },
        Part::Operation => {
            buf.append("        fn ");
            buf.append(m.name.as_str());
            buf.append("(&mut self, request: ");
            emit_input_shape(buf, m);
            buf.append(") -> Result<");
            emit_output_shape(buf, m);
            buf.append(", doggo::Status>;\n");
        },
        Part::Arm(k) => {
            if m.cardinality() == k {
                buf.append("                Requests::");
                buf.append(m.proto_name.as_str());
                emit_arm_call(buf, m);
                emit_arm_encode(buf, m);
                buf.append(",\n");
            }
        },
    }
    assert(buf@ =~= old(buf)@ + piece(part, m@));
}

fn emit_pieces(buf: &mut String, part: Part, ms: &Vec<MethodDescriptor>)
    ensures
        final(buf)@ == old(buf)@ + pieces(part, methods_view(ms@)),
{
    let ghost start = buf@;
    let ghost all = methods_view(ms@);
    let n = ms.len();
    let mut i: usize = 0;
    assert(all.take(0) =~= Seq::<MethodView>::empty());
    while i < n
        invariant
            n == ms@.len(),
            all == methods_view(ms@),
            i <= n,
            buf@ == start + pieces(part, all.take(i as int)),
        decreases n - i,
    {
        emit_piece(buf, part, &ms[i]);
        assert(all.take(i + 1).drop_last() =~= all.take(i as int));
        assert(all.take(i + 1).last() == ms@[i as int]@);
        assert(buf@ =~= start + pieces(part, all.take(i + 1)));
        i = i + 1;
    }
    assert(all.take(n as int) =~= all);
}

fn emit_server(buf: &mut String, name: &str)
    ensures
        final(buf)@ == old(buf)@ + server_section(name@),
{
    buf.append(name);
    buf.append("Server<T: ");
    buf.append(name);
    buf.append(">");
    buf.append(STRUCT_BODY);
    buf.append(name);
    buf.append("> ");
    buf.append(name);
    buf.append("Server<T>");
    buf.append(NEW_BODY);
    buf.append(name);
    buf.append("> doggo::Handler for ");
    buf.append(name);
    buf.append("Server<T>");
    assert(buf@ =~= old(buf)@ + server_section(name@));
}

fn emit_dispatch(buf: &mut String, ms: &Vec<MethodDescriptor>)
    ensures
        final(buf)@ == old(buf)@ + dispatch_section(methods_view(ms@)),
{
    buf.append(UNARY_HEAD);
    emit_pieces(buf, Part::Arm(Cardinality::Unary), ms);
    buf.append(ARM_TAIL);
    buf.append(CLIENT_HEAD);
    emit_pieces(buf, Part::Arm(Cardinality::ClientStreaming), ms);
    buf.append(ARM_TAIL);
    buf.append(SERVER_HEAD);
    emit_pieces(buf, Part::Arm(Cardinality::ServerStreaming), ms);
    buf.append(ARM_TAIL);
    buf.append(BIDI_HEAD);
    emit_pieces(buf, Part::Arm(Cardinality::Bidirectional), ms);
    buf.append(ARM_TAIL);
    buf.append(END);
    assert(buf@ =~= old(buf)@ + dispatch_section(methods_view(ms@)));
}

/// Generates, from a service description, the request-kind enum, the capability
/// trait that an application implements, and the dispatcher that routes requests
/// to it.
pub struct ServiceGen {}

impl ServiceGen {
    pub fn new() -> (r: ServiceGen) {
        ServiceGen {}
    }

    /// Appends to `buf` the code for `service`; a description that cannot be
    /// compiled is refused with `buf` left as it was.
    pub fn generate(&mut self, service: &ServiceDescriptor, buf: &mut String) -> (r: Result<(), GenError>)
        ensures
            r == check_spec(service.name@, service.methods_spec()),
            r is Ok ==> final(buf)@ == old(buf)@ + service_code(service.name@, service.methods_spec()),
            r is Err ==> final(buf)@ == old(buf)@,
    {
        match service.check() {
            Err(e) => Err(e),
            Ok(()) => {
                let ghost ms = service.methods_spec();
                let ghost name = service.name@;
                buf.append(ENUM_HEAD);
                emit_pieces(buf, Part::Variant, &service.methods);
                assert(buf@ =~= old(buf)@ + enum_section(ms));
                buf.append(MOD_HEAD);
                buf.append(service.name.as_str());
                buf.append(" {\n");
                emit_pieces(buf, Part::Operation, &service.methods);
                buf.append(HELPERS);
                emit_pieces(buf, Part::Decode, &service.methods);
                buf.append(DECODE_TAIL);
                assert(buf@ =~= old(buf)@ + enum_section(ms) + trait_section(name, ms));
                emit_server(buf, service.name.as_str());
                emit_dispatch(buf, &service.methods);
                assert(buf@ =~= old(buf)@ + service_code(name, ms));
                Ok(())
            },
        }
    }
}

/// Entry point of the code generation for a set of interface files.
pub struct Builder {}

impl Builder {
    /// The generator that this builder hands each service to.
    pub fn service_generator(&self) -> (r: ServiceGen) {
        ServiceGen {}
    }
}

impl Default for Builder {
    fn default() -> (r: Builder) {
        Builder {}
    }
}

} // verus!
