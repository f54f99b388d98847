use vstd::prelude::*;
use crate::descriptor::text_eq;

verus! {

#[verifier::external_type_specification]
#[verifier::external_body]
pub struct ExJsonError(serde_json::Error);

/// What `serde_json` reads from the document `b` as a pair of a string and a byte
/// array; `None` where `b` is no such document.
pub uninterp spec fn envelope_of_json(b: Seq<u8>) -> Option<(Seq<char>, Seq<u8>)>;

/// The document that `serde_json` writes for the pair of `tag` and `payload`.
pub uninterp spec fn json_of_envelope(tag: Seq<char>, payload: Seq<u8>) -> Seq<u8>;

/// What `serde_json` reads from the document `b` as an optional result of a byte
/// array or a string; `None` where `b` is no such document.
pub uninterp spec fn frame_of_json(b: Seq<u8>) -> Option<Option<Result<Seq<u8>, Seq<char>>>>;

/// The document that `serde_json` writes for the optional result `f`.
pub uninterp spec fn json_of_frame(f: Option<Result<Seq<u8>, Seq<char>>>) -> Seq<u8>;

/// Relies on `serde_json::from_slice` for `(String, Vec<u8>)`: it reads exactly the
/// documents that `serde_json::to_vec` writes for such a pair, and gives the pair
/// back.
#[verifier::external_body]
fn read_envelope_json(b: &[u8]) -> (r: Result<(String, Vec<u8>), serde_json::Error>)
    ensures
        r is Ok <==> envelope_of_json(b@) is Some,
        r is Ok ==> envelope_of_json(b@) == Some((r->Ok_0.0@, r->Ok_0.1@)),
        forall|t: Seq<char>, p: Seq<u8>|
            b@ == #[trigger] json_of_envelope(t, p) ==> r is Ok && r->Ok_0.0@ == t && r->Ok_0.1@ == p,
{
    serde_json::from_slice::<(String, Vec<u8>)>(b)
}

/// Relies on `serde_json::to_vec` for `(&String, &Vec<u8>)`, which cannot fail: the
/// pair holds no map and its parts always serialize.
#[verifier::external_body]
fn write_envelope_json(tag: &String, payload: &Vec<u8>) -> (r: Result<Vec<u8>, serde_json::Error>)
    ensures
        r is Ok,
        r is Ok ==> r->Ok_0@ == json_of_envelope(tag@, payload@),
{
    serde_json::to_vec(&(tag, payload))
}

pub open spec fn frame_value_view(f: Option<Result<Vec<u8>, String>>) -> Option<Result<Seq<u8>, Seq<char>>> {
    match f {
        None => None,
        Some(Ok(v)) => Some(Ok(v@)),
        Some(Err(s)) => Some(Err(s@)),
    }
}

/// Relies on `serde_json::from_slice` for `Option<Result<Vec<u8>, String>>`: it reads
/// exactly the documents that `serde_json::to_vec` writes for such a value, and
/// gives the value back.
#[verifier::external_body]
fn read_frame_json(b: &[u8]) -> (r: Result<Option<Result<Vec<u8>, String>>, serde_json::Error>)
    ensures
        r is Ok <==> frame_of_json(b@) is Some,
        r is Ok ==> frame_of_json(b@) == Some(frame_value_view(r->Ok_0)),
        forall|f: Option<Result<Seq<u8>, Seq<char>>>|
            b@ == #[trigger] json_of_frame(f) ==> r is Ok && frame_value_view(r->Ok_0) == f,
{
    serde_json::from_slice::<Option<Result<Vec<u8>, String>>>(b)
}

/// Relies on `serde_json::to_vec` for `Option<Result<Vec<u8>, String>>`, which cannot
/// fail: the value holds no map and its parts always serialize.
#[verifier::external_body]
fn write_frame_json(f: &Option<Result<Vec<u8>, String>>) -> (r: Result<Vec<u8>, serde_json::Error>)
    ensures
        r is Ok,
        r is Ok ==> r->Ok_0@ == json_of_frame(frame_value_view(*f)),
{
    serde_json::to_vec(f)
}

/// An error outcome of a request, sent back to the caller.
#[derive(Debug, Clone, Copy, PartialEq, Eq, Structural)]
pub enum Status {
    /// The envelope, its tag, or a payload could not be decoded.
    RequestDecodeError,
    /// The service has no such operation, or does not offer it.
    Unimplemented,
    /// The input was read but its value is refused.
    InvalidArgument,
    /// What the request asks for does not exist.
    NotFound,
    /// The handler failed.
    Internal,
}

pub open spec fn status_name(s: Status) -> Seq<char> {
    match s {
        Status::RequestDecodeError => "RequestDecodeError"@,
        Status::Unimplemented => "Unimplemented"@,
        Status::InvalidArgument => "InvalidArgument"@,
        Status::NotFound => "NotFound"@,
        Status::Internal => "Internal"@,
    }
}

pub open spec fn status_of_name(n: Seq<char>) -> Option<Status> {
    if n == "RequestDecodeError"@ {
        Some(Status::RequestDecodeError)
    } else if n == "Unimplemented"@ {
        Some(Status::Unimplemented)
    } else if n == "InvalidArgument"@ {
        Some(Status::InvalidArgument)
    } else if n == "NotFound"@ {
        Some(Status::NotFound)
    } else if n == "Internal"@ {
        Some(Status::Internal)
    } else {
        None
    }
}

/// Every status is read back from its name.
pub proof fn lemma_status_name_round_trip(s: Status)
    ensures
        status_of_name(status_name(s)) == Some(s),
{
    reveal_strlit("RequestDecodeError");
    reveal_strlit("Unimplemented");
    reveal_strlit("InvalidArgument");
    reveal_strlit("NotFound");
    reveal_strlit("Internal");
    assert("RequestDecodeError"@[0] != "Unimplemented"@[0]);
    assert("RequestDecodeError"@[0] != "InvalidArgument"@[0]);
    assert("RequestDecodeError"@[0] != "NotFound"@[0]);
    assert("RequestDecodeError"@[0] != "Internal"@[0]);
    assert("Unimplemented"@[0] != "InvalidArgument"@[0]);
    assert("Unimplemented"@[0] != "NotFound"@[0]);
    assert("Unimplemented"@[0] != "Internal"@[0]);
    assert("InvalidArgument"@[0] != "NotFound"@[0]);
    assert("InvalidArgument"@.len() != "Internal"@.len());
    assert("NotFound"@[0] != "Internal"@[0]);
}

impl Status {
    /// The name under which the status travels.
    pub fn name(&self) -> (r: &'static str)
        ensures
            r@ == status_name(*self),
    {
        match self {
            Status::RequestDecodeError => "RequestDecodeError",
            Status::Unimplemented => "Unimplemented",
            Status::InvalidArgument => "InvalidArgument",
            Status::NotFound => "NotFound",
            Status::Internal => "Internal",
        }
    }

    /// The status with name `n`, if there is one.
    pub fn from_name(n: &str) -> (r: Option<Status>)
        ensures
            r == status_of_name(n@),
    {
        if text_eq(n, "RequestDecodeError") {
            Some(Status::RequestDecodeError)
        } else if text_eq(n, "Unimplemented") {
            Some(Status::Unimplemented)
        } else if text_eq(n, "InvalidArgument") {
            Some(Status::InvalidArgument)
        } else if text_eq(n, "NotFound") {
            Some(Status::NotFound)
        } else if text_eq(n, "Internal") {
            Some(Status::Internal)
        } else {
            None
        }
    }
}

/// The outer document of a request: the tag that names the method, and the
/// payload, the encoded input message. On the wire it is the JSON pair
/// `[tag, [payload bytes]]`.
pub struct Request {
    pub path: String,
    pub data: Vec<u8>,
}

impl Request {
    pub fn new(path: String, data: Vec<u8>) -> (r: Request)
        ensures
            r.path@ == path@,
            r.data@ == data@,
    {
        Request { path, data }
    }

    /// Reads a request envelope; `None` where `b` is not one.
    pub fn decode(b: &[u8]) -> (r: Option<Request>)
        ensures
            r is None <==> envelope_of_json(b@) is None,
            r is Some ==> envelope_of_json(b@) == Some((r->Some_0.path@, r->Some_0.data@)),
            forall|t: Seq<char>, p: Seq<u8>|
                b@ == #[trigger] json_of_envelope(t, p) ==> r is Some && r->Some_0.path@ == t
                    && r->Some_0.data@ == p,
    {
        match read_envelope_json(b) {
            Ok((path, data)) => Some(Request { path, data }),
            Err(_) => None,
        }
    }

    /// Writes the envelope.
    pub fn encode(&self) -> (r: Vec<u8>)
        ensures
            r@ == json_of_envelope(self.path@, self.data@),
    {
        match write_envelope_json(&self.path, &self.data) {
            Ok(v) => v,
            Err(_) => Vec::new(),
        }
    }
}

/// The document sent back for the outcome `r` of a request, and for each element
/// of a response stream: `{"Ok":[bytes]}` or `{"Err":"<status name>"}`.
pub open spec fn reply_json(r: Result<Seq<u8>, Status>) -> Seq<u8> {
    match r {
        Ok(v) => json_of_frame(Some(Ok(v))),
        Err(s) => json_of_frame(Some(Err(status_name(s)))),
    }
}

/// The document that ends a stream of frames: `null`.
pub open spec fn end_json() -> Seq<u8> {
    json_of_frame(None)
}

pub open spec fn result_view(r: Result<Vec<u8>, Status>) -> Result<Seq<u8>, Status> {
    match r {
        Ok(v) => Ok(v@),
        Err(s) => Err(s),
    }
}

/// Meaning of a frame document: `None` where it is not a frame; `Some(None)` for the
/// end of a stream; `Some(Some(r))` for an element with outcome `r`.
pub open spec fn frame_spec(b: Seq<u8>) -> Option<Option<Result<Seq<u8>, Status>>> {
    match frame_of_json(b) {
        None => None,
        Some(None) => Some(None),
        Some(Some(Ok(v))) => Some(Some(Ok(v))),
        Some(Some(Err(n))) => match status_of_name(n) {
            None => None,
            Some(s) => Some(Some(Err(s))),
        },
    }
}

/// Writes the reply for the outcome `r`.
pub fn encode_reply(r: &Result<Vec<u8>, Status>) -> (out: Vec<u8>)
    ensures
        out@ == reply_json(result_view(*r)),
{
    let f: Option<Result<Vec<u8>, String>> = match r {
        Ok(v) => Some(Ok(v.clone())),
        Err(s) => Some(Err(String::from_str(s.name()))),
    };
    match write_frame_json(&f) {
        Ok(v) => v,
        Err(_) => Vec::new(),
    }
}

/// Writes the frame that ends a stream.
pub fn encode_end() -> (out: Vec<u8>)
    ensures
        out@ == end_json(),
{
    let f: Option<Result<Vec<u8>, String>> = None;
    match write_frame_json(&f) {
        Ok(v) => v,
        Err(_) => Vec::new(),
    }
}

/// Reads a frame (see [`frame_spec`]). Whatever [`encode_reply`] or [`encode_end`]
/// wrote is read back as what was written.
pub fn decode_frame(b: &[u8]) -> (out: Option<Option<Result<Vec<u8>, Status>>>)
    ensures
        out is None <==> frame_spec(b@) is None,
        (out == Some(None::<Result<Vec<u8>, Status>>)) <==> frame_spec(b@) == Some(
            None::<Result<Seq<u8>, Status>>,
        ),
        (out is Some && out->Some_0 is Some) ==> frame_spec(b@) == Some(
            Some(result_view(out->Some_0->Some_0)),
        ),
        forall|r: Result<Seq<u8>, Status>|
            b@ == #[trigger] reply_json(r) ==> (out is Some && out->Some_0 is Some && result_view(
                out->Some_0->Some_0,
            ) == r),
        b@ == end_json() ==> out == Some(None::<Result<Vec<u8>, Status>>),
{
    let read = read_frame_json(b);
    proof {
        assert forall|r: Result<Seq<u8>, Status>| b@ == #[trigger] reply_json(r) implies frame_spec(b@)
            == Some(Some(r)) by {
            assert(json_of_frame(Some(match r {
                Ok(v) => Ok(v),
                Err(s) => Err(status_name(s)),
            })) == b@);
            if let Err(s) = r {
                lemma_status_name_round_trip(s);
            }
        }
    }
    match read {
        Err(_) => None,
        Ok(None) => Some(None),
        Ok(Some(Ok(v))) => Some(Some(Ok(v))),
        Ok(Some(Err(n))) => match Status::from_name(n.as_str()) {
            None => None,
            Some(s) => Some(Some(Err(s))),
        },
    }
}

} // verus!
