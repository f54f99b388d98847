use vstd::prelude::*;
use crate::descriptor::{MethodDescriptor, MethodView, methods_view, text_eq};
use crate::wire::{
    Request, Status, decode_frame, encode_end, encode_reply, end_json, envelope_of_json, frame_spec,
    reply_json, result_view,
};

verus! {

/// The operations of a service as the dispatcher calls them: by the method's wire
/// tag, on encoded inputs, giving encoded outputs. The generated server type
/// implements it over the application's capability trait.
pub trait Handler {
    /// A method with one input and one output.
    fn unary(&mut self, method: &str, input: Vec<u8>) -> Result<Vec<u8>, Status>;

    /// A method with a stream of inputs, each one read or failed, and one output.
    fn client_streaming(&mut self, method: &str, inputs: Vec<Result<Vec<u8>, Status>>) -> Result<
        Vec<u8>,
        Status,
    >;

    /// A method with one input and a stream of outputs.
    fn server_streaming(&mut self, method: &str, input: Vec<u8>) -> Result<Vec<Vec<u8>>, Status>;

    /// A method with streams both ways.
    fn bidirectional(&mut self, method: &str, inputs: Vec<Result<Vec<u8>, Status>>) -> Result<
        Vec<Vec<u8>>,
        Status,
    >;
}

/// Index of the first method whose wire tag is `tag`.
pub open spec fn lookup_spec(ms: Seq<MethodView>, tag: Seq<char>) -> Option<nat>
    decreases ms.len(),
{
    if ms.len() == 0 {
        None
    } else {
        match lookup_spec(ms.drop_last(), tag) {
            Some(i) => Some(i),
            None => if ms.last().proto_name == tag {
                Some((ms.len() - 1) as nat)
            } else {
                None
            },
        }
    }
}

/// The index that [`lookup_spec`] finds is that of a method with the tag.
pub proof fn lemma_lookup_bound(ms: Seq<MethodView>, tag: Seq<char>)
    ensures
        lookup_spec(ms, tag) matches Some(i) ==> i < ms.len() && ms[i as int].proto_name == tag,
    decreases ms.len(),
{
    if ms.len() > 0 {
        lemma_lookup_bound(ms.drop_last(), tag);
    }
}

/// Finds the method with wire tag `tag`.
pub fn lookup(methods: &Vec<MethodDescriptor>, tag: &str) -> (r: Option<usize>)
    ensures
        r is Some <==> lookup_spec(methods_view(methods@), tag@) is Some,
        r is Some ==> lookup_spec(methods_view(methods@), tag@) == Some(r->Some_0 as nat),
{
    let ghost ms = methods_view(methods@);
    let n = methods.len();
    let mut i: usize = 0;
    assert(ms.take(0) =~= Seq::<MethodView>::empty());
    while i < n
        invariant
            n == methods@.len(),
            ms == methods_view(methods@),
            i <= n,
            lookup_spec(ms.take(i as int), tag@) is None,
        decreases n - i,
    {
        assert(ms.take(i + 1).drop_last() =~= ms.take(i as int));
        if text_eq(methods[i].proto_name.as_str(), tag) {
            assert(lookup_spec(ms.take(i + 1), tag@) == Some(i as nat));
            proof {
                lemma_lookup_prefix(ms, tag@, i as int + 1);
            }
            return Some(i);
        }
        i = i + 1;
    }
    assert(ms.take(n as int) =~= ms);
    None
}

proof fn lemma_lookup_prefix(ms: Seq<MethodView>, tag: Seq<char>, k: int)
    requires
        0 <= k <= ms.len(),
        lookup_spec(ms.take(k), tag) is Some,
    ensures
        lookup_spec(ms, tag) == lookup_spec(ms.take(k), tag),
    decreases ms.len() - k,
{
    if k < ms.len() {
        assert(ms.take(k + 1).drop_last() =~= ms.take(k));
        lemma_lookup_prefix(ms, tag, k + 1);
    } else {
        assert(ms.take(k) =~= ms);
    }
}

/// No two methods share a wire tag.
pub open spec fn tags_distinct(ms: Seq<MethodView>) -> bool {
    forall|i: int, j: int|
        0 <= i < ms.len() && 0 <= j < ms.len() && i != j ==> #[trigger] ms[i].proto_name
            != #[trigger] ms[j].proto_name
}

/// Among methods with distinct tags, the one with tag `tag` is found.
pub proof fn lemma_lookup_distinct(ms: Seq<MethodView>, tag: Seq<char>, i: int)
    requires
        tags_distinct(ms),
        0 <= i < ms.len(),
        ms[i].proto_name == tag,
    ensures
        lookup_spec(ms, tag) == Some(i as nat),
    decreases ms.len(),
{
    let init = ms.drop_last();
    assert(tags_distinct(init)) by {
        assert forall|x: int, y: int|
            0 <= x < init.len() && 0 <= y < init.len() && x != y implies #[trigger] init[x].proto_name
            != #[trigger] init[y].proto_name by {
            assert(init[x] == ms[x] && init[y] == ms[y]);
        }
    }
    if i < ms.len() - 1 {
        assert(init[i] == ms[i]);
        lemma_lookup_distinct(init, tag, i);
    } else {
        lemma_lookup_bound(init, tag);
        if let Some(j) = lookup_spec(init, tag) {
            assert(init[j as int] == ms[j as int]);
            assert(ms[j as int].proto_name != ms[i].proto_name);
        }
    }
}

/// Whether no two of `methods` share a wire tag.
pub fn distinct_tags(methods: &Vec<MethodDescriptor>) -> (r: bool)
    ensures
        r == tags_distinct(methods_view(methods@)),
{
    let ghost ms = methods_view(methods@);
    let n = methods.len();
    let mut a: usize = 0;
    while a < n
        invariant
            n == methods@.len(),
            ms == methods_view(methods@),
            a <= n,
            forall|x: int, y: int|
                0 <= x < a && 0 <= y < n && x != y ==> #[trigger] ms[x].proto_name
                    != #[trigger] ms[y].proto_name,
        decreases n - a,
    {
        let mut b: usize = 0;
        while b < n
            invariant
                n == methods@.len(),
                ms == methods_view(methods@),
                a < n,
                b <= n,
                forall|x: int, y: int|
                    0 <= x < a && 0 <= y < n && x != y ==> #[trigger] ms[x].proto_name
                        != #[trigger] ms[y].proto_name,
                forall|y: int| 0 <= y < b && a != y ==> ms[a as int].proto_name != #[trigger] ms[y].proto_name,
            decreases n - b,
        {
            if a != b && text_eq(methods[a].proto_name.as_str(), methods[b].proto_name.as_str()) {
                assert(ms[a as int].proto_name == ms[b as int].proto_name);
                return false;
            }
            b = b + 1;
        }
        a = a + 1;
    }
    true
}

/// Where an incoming request goes.
pub ghost enum RouteView {
    /// Not an envelope, or its tag names no method.
    Reject,
    /// The method at `method`, with the envelope's payload.
    Open { method: nat, input: Seq<u8> },
}

pub open spec fn route_spec(ms: Seq<MethodView>, b: Seq<u8>) -> RouteView {
    match envelope_of_json(b) {
        None => RouteView::Reject,
        Some((tag, payload)) => match lookup_spec(ms, tag) {
            None => RouteView::Reject,
            Some(i) => RouteView::Open { method: i, input: payload },
        },
    }
}

pub enum Route {
    Reject,
    Open { method: usize, input: Vec<u8> },
}

impl View for Route {
    type V = RouteView;

    open spec fn view(&self) -> RouteView {
        match self {
            Route::Reject => RouteView::Reject,
            Route::Open { method, input } => RouteView::Open { method: *method as nat, input: input@ },
        }
    }
}

/// Reads the envelope of a request and finds its method.
pub fn route(methods: &Vec<MethodDescriptor>, b: &[u8]) -> (r: Route)
    ensures
        r@ == route_spec(methods_view(methods@), b@),
        r matches Route::Open { method, .. } ==> method < methods@.len(),
{
    proof {
        if let Some((tag, _)) = envelope_of_json(b@) {
            lemma_lookup_bound(methods_view(methods@), tag);
        }
    }
    match Request::decode(b) {
        None => Route::Reject,
        Some(req) => match lookup(methods, req.path.as_str()) {
            None => Route::Reject,
            Some(i) => Route::Open { method: i, input: req.data },
        },
    }
}

/// One element of an input stream read from frame `b`: `None` at the end of the
/// stream; an element that cannot be read reports `RequestDecodeError`.
pub open spec fn element_spec(b: Seq<u8>) -> Option<Result<Seq<u8>, Status>> {
    match frame_spec(b) {
        None => Some(Err(Status::RequestDecodeError)),
        Some(None) => None,
        Some(Some(r)) => Some(r),
    }
}

/// Reads one frame of an input stream (see [`element_spec`]).
pub fn read_element(b: &[u8]) -> (r: Option<Result<Vec<u8>, Status>>)
    ensures
        r is None <==> element_spec(b@) is None,
        r is Some ==> element_spec(b@) == Some(result_view(r->Some_0)),
{
    match decode_frame(b) {
        None => Some(Err(Status::RequestDecodeError)),
        Some(None) => None,
        Some(Some(x)) => Some(x),
    }
}

pub open spec fn frames_view(v: Seq<Vec<u8>>) -> Seq<Seq<u8>> {
    v.map_values(|f: Vec<u8>| f@)
}

pub open spec fn results_view(v: Seq<Result<Vec<u8>, Status>>) -> Seq<Result<Seq<u8>, Status>> {
    v.map_values(|r: Result<Vec<u8>, Status>| result_view(r))
}

/// The frames sent for the outcome of a server-streaming operation: one reply per
/// element, or one for the error, then the end of the stream.
pub open spec fn stream_json(r: Result<Seq<Seq<u8>>, Status>) -> Seq<Seq<u8>> {
    match r {
        Ok(items) => items.map_values(|i: Seq<u8>| reply_json(Ok(i))).push(end_json()),
        Err(s) => seq![reply_json(Err(s)), end_json()],
    }
}

pub open spec fn stream_view(r: Result<Vec<Vec<u8>>, Status>) -> Result<Seq<Seq<u8>>, Status> {
    match r {
        Ok(v) => Ok(frames_view(v@)),
        Err(s) => Err(s),
    }
}

/// Writes the frames for the outcome of a server-streaming operation.
pub fn encode_stream(r: &Result<Vec<Vec<u8>>, Status>) -> (out: Vec<Vec<u8>>)
    ensures
        frames_view(out@) == stream_json(stream_view(*r)),
{
    let mut out: Vec<Vec<u8>> = Vec::new();
    match r {
        Ok(items) => {
            let ghost want = frames_view(items@).map_values(|i: Seq<u8>| reply_json(Ok(i)));
            let n = items.len();
            let mut k: usize = 0;
            while k < n
                invariant
                    n == items@.len(),
                    k <= n,
                    want == frames_view(items@).map_values(|i: Seq<u8>| reply_json(Ok(i))),
                    frames_view(out@) =~= want.take(k as int),
                decreases n - k,
            {
                let v = items[k].clone();
                assert(v@ == items@[k as int]@);
                let item: Result<Vec<u8>, Status> = Ok(v);
                let f = encode_reply(&item);
                let ghost before = out@;
                out.push(f);
                assert(frames_view(out@) =~= frames_view(before).push(f@));
                assert(want.take(k + 1) =~= want.take(k as int).push(want[k as int]));
                k = k + 1;
            }
            out.push(encode_end());
            assert(want.take(n as int) =~= want);
        },
        Err(s) => {
            let e: Result<Vec<u8>, Status> = Err(*s);
            out.push(encode_reply(&e));
            out.push(encode_end());
        },
    }
    assert(frames_view(out@) =~= stream_json(stream_view(*r)));
    out
}

/// One invocation of an operation: the method, and the inputs handed to it.
pub ghost struct Call {
    pub method: nat,
    pub inputs: Seq<Result<Seq<u8>, Status>>,
}

/// The frames that answer one invocation of method `m`: a single reply, or for a
/// method with a response stream, the frames of [`stream_json`].
pub open spec fn answers(m: MethodView, out: Seq<Seq<u8>>) -> bool {
    if m.server_streaming {
        exists|r: Result<Seq<Seq<u8>>, Status>| out == stream_json(r)
    } else {
        exists|r: Result<Seq<u8>, Status>| out == seq![#[trigger] reply_json(r)]
    }
}

/// An input stream being received: the method, and the elements so far.
pub type PendingView = Option<(nat, Seq<Result<Seq<u8>, Status>>)>;

/// What handling the message `b` does on a connection with methods `ms`: from the
/// input stream `p` and the invocations `c`, to `p2` and `c2`, sending `out`.
pub open spec fn next_spec(
    ms: Seq<MethodView>,
    p: PendingView,
    c: Seq<Call>,
    b: Seq<u8>,
    p2: PendingView,
    c2: Seq<Call>,
    out: Seq<Seq<u8>>,
) -> bool {
    match p {
        None => match route_spec(ms, b) {
            RouteView::Reject => p2 is None && c2 == c && out == seq![
                reply_json(Err(Status::RequestDecodeError)),
            ],
            RouteView::Open { method, input } => if ms[method as int].client_streaming {
                p2 == Some((method, Seq::<Result<Seq<u8>, Status>>::empty())) && c2 == c && out
                    == Seq::<Seq<u8>>::empty()
            } else {
                p2 is None && c2 == c.push(Call { method, inputs: seq![Ok(input)] }) && answers(
                    ms[method as int],
                    out,
                )
            },
        },
        Some((method, inputs)) => match element_spec(b) {
            Some(e) => p2 == Some((method, inputs.push(e))) && c2 == c && out == Seq::<
                Seq<u8>,
            >::empty(),
            None => p2 is None && c2 == c.push(Call { method, inputs }) && answers(
                ms[method as int],
                out,
            ),
        },
    }
}

/// An input stream being received on a connection.
pub struct Pending {
    pub method: usize,
    pub inputs: Vec<Result<Vec<u8>, Status>>,
}

/// The requests of one connection, handled one after another: it routes each
/// request to the handler and produces the frames to send back.
pub struct Session<H> {
    pub handler: H,
    pub methods: Vec<MethodDescriptor>,
    pub pending: Option<Pending>,
    /// Whether a message has arrived on the connection.
    pub received: bool,
    /// Every invocation of the handler so far, in order.
    pub calls: Ghost<Seq<Call>>,
}

impl<H: Handler> Session<H> {
    pub open spec fn methods_spec(&self) -> Seq<MethodView> {
        methods_view(self.methods@)
    }

    pub open spec fn pending_spec(&self) -> PendingView {
        match self.pending {
            None => None,
            Some(p) => Some((p.method as nat, results_view(p.inputs@))),
        }
    }

    /// No two methods share a tag, and an input stream being received belongs to a
    /// method that takes one.
    pub open spec fn wf(&self) -> bool {
        &&& tags_distinct(self.methods_spec())
        &&& self.pending matches Some(p) ==> p.method < self.methods@.len()
            && self.methods@[p.method as int].client_streaming
    }

    /// Whether the session is well formed (see [`Session::wf`]).
    pub fn ready(&self) -> (r: bool)
        ensures
            r == self.wf(),
    {
        distinct_tags(&self.methods) && match &self.pending {
            None => true,
            Some(p) => p.method < self.methods.len() && self.methods[p.method].client_streaming,
        }
    }

    pub fn new(handler: H, methods: Vec<MethodDescriptor>) -> (r: Session<H>)
        requires
            tags_distinct(methods_view(methods@)),
        ensures
            r.wf(),
            r.handler == handler,
            r.methods@ == methods@,
            r.pending is None,
            !r.received,
            r.calls@ == Seq::<Call>::empty(),
    {
        Session { handler, methods, pending: None, received: false, calls: Ghost(Seq::empty()) }
    }

    fn invoke_single(&mut self, method: usize, input: Vec<u8>) -> (out: Vec<Vec<u8>>)
        requires
            method < old(self).methods@.len(),
            !old(self).methods@[method as int].client_streaming,
        ensures
            final(self).methods@ == old(self).methods@,
            final(self).pending == old(self).pending,
            final(self).received == old(self).received,
            final(self).calls@.len() == old(self).calls@.len() + 1,
            final(self).calls@ == old(self).calls@.push(
                Call { method: method as nat, inputs: seq![Ok(input@)] },
            ),
            answers(old(self).methods_spec()[method as int], frames_view(out@)),
    {
        let tag = self.methods[method].proto_name.clone();
        let ghost inp = input@;
        proof {
            self.calls@ = self.calls@.push(Call { method: method as nat, inputs: seq![Ok(inp)] });
        }
        if self.methods[method].server_streaming {
            let res = self.handler.server_streaming(tag.as_str(), input);
            let out = encode_stream(&res);
            assert(frames_view(out@) == stream_json(stream_view(res)));
            out
        } else {
            let res = self.handler.unary(tag.as_str(), input);
            let f = encode_reply(&res);
            let out = vec![f];
            assert(frames_view(out@) =~= seq![reply_json(result_view(res))]);
            out
        }
    }

    fn invoke_stream(&mut self, method: usize, inputs: Vec<Result<Vec<u8>, Status>>) -> (out: Vec<
        Vec<u8>,
    >)
        requires
            method < old(self).methods@.len(),
        ensures
            final(self).methods@ == old(self).methods@,
            final(self).pending == old(self).pending,
            final(self).received == old(self).received,
            final(self).calls@.len() == old(self).calls@.len() + 1,
            final(self).calls@ == old(self).calls@.push(
                Call { method: method as nat, inputs: results_view(inputs@) },
            ),
            answers(old(self).methods_spec()[method as int], frames_view(out@)),
    {
        let tag = self.methods[method].proto_name.clone();
        let ghost inp = results_view(inputs@);
        proof {
            self.calls@ = self.calls@.push(Call { method: method as nat, inputs: inp });
        }
        if self.methods[method].server_streaming {
            let res = self.handler.bidirectional(tag.as_str(), inputs);
            let out = encode_stream(&res);
            assert(frames_view(out@) == stream_json(stream_view(res)));
            out
        } else {
            let res = self.handler.client_streaming(tag.as_str(), inputs);
            let f = encode_reply(&res);
            let out = vec![f];
            assert(frames_view(out@) =~= seq![reply_json(result_view(res))]);
            out
        }
    }

    /// Handles one message of the connection and gives the frames to send back,
    /// in order (see [`next_spec`]).
    pub fn handle(&mut self, b: &[u8]) -> (out: Vec<Vec<u8>>)
        requires
            old(self).wf(),
        ensures
            final(self).wf(),
            final(self).methods@ == old(self).methods@,
            final(self).received,
            final(self).calls@ == old(self).calls@ ==> final(self).handler == old(self).handler,
            next_spec(
                old(self).methods_spec(),
                old(self).pending_spec(),
                old(self).calls@,
                b@,
                final(self).pending_spec(),
                final(self).calls@,
                frames_view(out@),
            ),
    {
        let ghost ms = self.methods_spec();
        self.received = true;
        match self.pending.take() {
            None => match route(&self.methods, b) {
                Route::Reject => {
                    let e: Result<Vec<u8>, Status> = Err(Status::RequestDecodeError);
                    let out = vec![encode_reply(&e)];
                    assert(frames_view(out@) =~= seq![reply_json(Err(Status::RequestDecodeError))]);
                    out
                },
                Route::Open { method, input } => {
                    if self.methods[method].client_streaming {
                        self.pending = Some(Pending { method, inputs: Vec::new() });
                        assert(results_view(Seq::<Result<Vec<u8>, Status>>::empty()) =~= Seq::<
                            Result<Seq<u8>, Status>,
                        >::empty());
                        let out: Vec<Vec<u8>> = Vec::new();
                        assert(frames_view(out@) =~= Seq::<Seq<u8>>::empty());
                        out
                    } else {
                        self.invoke_single(method, input)
                    }
                },
            },
            Some(p) => {
                let Pending { method, mut inputs } = p;
                match read_element(b) {
                    Some(e) => {
                        let ghost before = inputs@;
                        inputs.push(e);
                        assert(results_view(inputs@) =~= results_view(before).push(result_view(e)));
                        self.pending = Some(Pending { method, inputs });
                        let out: Vec<Vec<u8>> = Vec::new();
                        assert(frames_view(out@) =~= Seq::<Seq<u8>>::empty());
                        out
                    },
                    None => self.invoke_stream(method, inputs),
                }
            },
        }
    }

    /// The peer closed the connection: an input stream being received is dropped,
    /// and no operation is invoked. A connection closed before its first message
    /// gets the reply `Err(RequestDecodeError)`; otherwise nothing is sent.
    pub fn on_closed(&mut self) -> (out: Vec<Vec<u8>>)
        requires
            old(self).wf(),
        ensures
            final(self).wf(),
            final(self).pending is None,
            final(self).received == old(self).received,
            final(self).calls@ == old(self).calls@,
            final(self).methods@ == old(self).methods@,
            final(self).handler == old(self).handler,
            !old(self).received ==> frames_view(out@) == seq![reply_json(Err(Status::RequestDecodeError))],
            old(self).received ==> out@.len() == 0,
    {
        self.pending = None;
        if self.received {
            Vec::new()
        } else {
            let e: Result<Vec<u8>, Status> = Err(Status::RequestDecodeError);
            let out = vec![encode_reply(&e)];
            assert(frames_view(out@) =~= seq![reply_json(Err(Status::RequestDecodeError))]);
            out
        }
    }
}

} // verus!
