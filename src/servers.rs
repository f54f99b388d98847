use vstd::prelude::*;
use crate::descriptor::text_eq;
use crate::engine::Handler;
use crate::wire::Status;

verus! {

/// A server over a QUIC connection that owns the service it answers for.
pub struct QuicheServer<S> {
    pub service: S,
}

impl<S> QuicheServer<S> {
    pub fn new(service: S) -> (r: QuicheServer<S>)
        ensures
            r.service == service,
    {
        QuicheServer { service }
    }
}

/// The replication service of this crate's sample server: the entry queries answer
/// with no entries, the log-height query with no heights, and the alias and
/// log-height-stream operations are not offered.
#[derive(Debug, Default, Clone)]
pub struct MyReplication {}

/// Whether `method` is an operation that the sample server answers with an empty
/// message.
fn answers_empty(method: &str) -> (r: bool)
    ensures
        r == (method@ == "GetAllEntriesByAuthors"@ || method@ == "GetSingleEntry"@ || method@
            == "GetEntriesBySequenceRange"@ || method@ == "GetLogHeightDeltas"@),
{
    text_eq(method, "GetAllEntriesByAuthors") || text_eq(method, "GetSingleEntry") || text_eq(
        method,
        "GetEntriesBySequenceRange",
    ) || text_eq(method, "GetLogHeightDeltas")
}

impl Handler for MyReplication {
    fn unary(&mut self, method: &str, input: Vec<u8>) -> (r: Result<Vec<u8>, Status>)
        ensures
            (method@ == "GetAllEntriesByAuthors"@ || method@ == "GetSingleEntry"@ || method@
                == "GetEntriesBySequenceRange"@ || method@ == "GetLogHeightDeltas"@) ==> (r is Ok
                && r->Ok_0@.len() == 0),
            !(method@ == "GetAllEntriesByAuthors"@ || method@ == "GetSingleEntry"@ || method@
                == "GetEntriesBySequenceRange"@ || method@ == "GetLogHeightDeltas"@) ==> r == Err::<
                Vec<u8>,
                Status,
            >(Status::Unimplemented),
    {
        if answers_empty(method) {
            Ok(Vec::new())
        } else {
            Err(Status::Unimplemented)
        }
    }

    fn client_streaming(&mut self, method: &str, inputs: Vec<Result<Vec<u8>, Status>>) -> (r: Result<
        Vec<u8>,
        Status,
    >)
        ensures
            r == Err::<Vec<u8>, Status>(Status::Unimplemented),
    {
        Err(Status::Unimplemented)
    }

    fn server_streaming(&mut self, method: &str, input: Vec<u8>) -> (r: Result<Vec<Vec<u8>>, Status>)
        ensures
            r == Err::<Vec<Vec<u8>>, Status>(Status::Unimplemented),
    {
        Err(Status::Unimplemented)
    }

    fn bidirectional(&mut self, method: &str, inputs: Vec<Result<Vec<u8>, Status>>) -> (r: Result<
        Vec<Vec<u8>>,
        Status,
    >)
        ensures
            r == Err::<Vec<Vec<u8>>, Status>(Status::Unimplemented),
    {
        Err(Status::Unimplemented)
    }
}

} // verus!
