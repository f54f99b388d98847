use vstd::prelude::*;
use crate::descriptor::MethodView;
use crate::engine::{
    Call, PendingView, RouteView, answers, element_spec, lemma_lookup_distinct, lookup_spec, next_spec,
    route_spec, tags_distinct,
};
use crate::wire::{Status, envelope_of_json, reply_json};

verus! {

/// A run of a connection: the messages `msgs` handled one after another, through
/// input-stream states `ps` and invocation logs `cs`, sending `outs`.
pub open spec fn run_spec(
    ms: Seq<MethodView>,
    ps: Seq<PendingView>,
    cs: Seq<Seq<Call>>,
    msgs: Seq<Seq<u8>>,
    outs: Seq<Seq<Seq<u8>>>,
) -> bool {
    &&& ps.len() == msgs.len() + 1
    &&& cs.len() == msgs.len() + 1
    &&& outs.len() == msgs.len()
    &&& forall|k: int|
        0 <= k < msgs.len() ==> #[trigger] next_spec(
            ms,
            ps[k],
            cs[k],
            msgs[k],
            ps[k + 1],
            cs[k + 1],
            outs[k],
        )
}

/// All frames of a run, in the order they were sent.
pub open spec fn sent(outs: Seq<Seq<Seq<u8>>>) -> Seq<Seq<u8>>
    decreases outs.len(),
{
    if outs.len() == 0 {
        Seq::empty()
    } else {
        sent(outs.drop_last()) + outs.last()
    }
}

/// A request for a method with neither an input nor a response stream.
pub open spec fn single_request(ms: Seq<MethodView>, b: Seq<u8>) -> bool {
    match route_spec(ms, b) {
        RouteView::Reject => true,
        RouteView::Open { method, .. } => !ms[method as int].client_streaming
            && !ms[method as int].server_streaming,
    }
}

/// On a connection whose methods have distinct tags, a well-formed request for a
/// unary method gets exactly one reply, the document of an outcome (an output or
/// a status), and the operation is invoked once, with the envelope's payload.
pub proof fn lemma_unary_request_answered(
    ms: Seq<MethodView>,
    c: Seq<Call>,
    b: Seq<u8>,
    i: int,
    payload: Seq<u8>,
    p2: PendingView,
    c2: Seq<Call>,
    out: Seq<Seq<u8>>,
)
    requires
        tags_distinct(ms),
        0 <= i < ms.len(),
        !ms[i].client_streaming,
        !ms[i].server_streaming,
        envelope_of_json(b) == Some((ms[i].proto_name, payload)),
        next_spec(ms, None, c, b, p2, c2, out),
    ensures
        out.len() == 1,
        exists|r: Result<Seq<u8>, Status>| out[0] == reply_json(r),
        c2 == c.push(Call { method: i as nat, inputs: seq![Ok(payload)] }),
        p2 is None,
{
    lemma_lookup_distinct(ms, ms[i].proto_name, i);
    let r = choose|r: Result<Seq<u8>, Status>| out == seq![#[trigger] reply_json(r)];
    assert(out[0] == reply_json(r));
}

/// A message that is no envelope, or whose tag names no method, gets exactly the
/// reply `Err(RequestDecodeError)`, and no operation is invoked.
pub proof fn lemma_malformed_request_rejected(
    ms: Seq<MethodView>,
    c: Seq<Call>,
    b: Seq<u8>,
    p2: PendingView,
    c2: Seq<Call>,
    out: Seq<Seq<u8>>,
)
    requires
        envelope_of_json(b) is None || lookup_spec(ms, envelope_of_json(b)->Some_0.0) is None,
        next_spec(ms, None, c, b, p2, c2, out),
    ensures
        out == seq![reply_json(Err(Status::RequestDecodeError))],
        c2 == c,
        p2 is None,
{
}

proof fn lemma_sent_concat(a: Seq<Seq<Seq<u8>>>, b: Seq<Seq<Seq<u8>>>)
    ensures
        sent(a + b) == sent(a) + sent(b),
    decreases b.len(),
{
    if b.len() == 0 {
        assert(a + b =~= a);
        assert(sent(a) + sent(b) =~= sent(a));
    } else {
        assert((a + b).drop_last() =~= a + b.drop_last());
        assert((a + b).last() == b.last());
        lemma_sent_concat(a, b.drop_last());
        assert(sent(a + b) =~= sent(a) + sent(b));
    }
}

/// On one connection, whatever its methods, the frames that answer the k-th
/// message are sent after those of every earlier message and before those of
/// every later one, and they are what handling the k-th message gives.
pub proof fn lemma_frames_in_message_order(
    ms: Seq<MethodView>,
    ps: Seq<PendingView>,
    cs: Seq<Seq<Call>>,
    msgs: Seq<Seq<u8>>,
    outs: Seq<Seq<Seq<u8>>>,
    k: int,
)
    requires
        run_spec(ms, ps, cs, msgs, outs),
        0 <= k < msgs.len(),
    ensures
        sent(outs) == sent(outs.take(k)) + outs[k] + sent(outs.skip(k + 1)),
        next_spec(ms, ps[k], cs[k], msgs[k], ps[k + 1], cs[k + 1], outs[k]),
{
    let one = seq![outs[k]];
    assert(outs =~= outs.take(k) + one + outs.skip(k + 1));
    lemma_sent_concat(outs.take(k) + one, outs.skip(k + 1));
    lemma_sent_concat(outs.take(k), one);
    assert(one.drop_last() =~= Seq::<Seq<Seq<u8>>>::empty());
    assert(sent(one.drop_last()) =~= Seq::<Seq<u8>>::empty());
    assert(one.last() == outs[k]);
    assert(sent(one) =~= outs[k]);
}

proof fn lemma_single_requests_prefix(
    ms: Seq<MethodView>,
    ps: Seq<PendingView>,
    cs: Seq<Seq<Call>>,
    msgs: Seq<Seq<u8>>,
    outs: Seq<Seq<Seq<u8>>>,
    n: int,
)
    requires
        run_spec(ms, ps, cs, msgs, outs),
        ps[0] is None,
        forall|k: int| 0 <= k < msgs.len() ==> single_request(ms, #[trigger] msgs[k]),
        0 <= n <= msgs.len(),
    ensures
        ps[n] is None,
        sent(outs.take(n)).len() == n,
        forall|k: int| 0 <= k < n ==> (#[trigger] outs[k]).len() == 1 && sent(outs.take(n))[k]
            == outs[k][0],
    decreases n,
{
    if n > 0 {
        lemma_single_requests_prefix(ms, ps, cs, msgs, outs, n - 1);
        let k = n - 1;
        assert(next_spec(ms, ps[k], cs[k], msgs[k], ps[k + 1], cs[k + 1], outs[k]));
        assert(single_request(ms, msgs[k]));
        match route_spec(ms, msgs[k]) {
            RouteView::Reject => {},
            RouteView::Open { method, input } => {
                assert(answers(ms[method as int], outs[k]));
                let r = choose|r: Result<Seq<u8>, Status>| outs[k] == seq![#[trigger] reply_json(r)];
                assert(outs[k].len() == 1);
            },
        }
        assert(outs.take(n).drop_last() =~= outs.take(k));
        assert(outs.take(n).last() == outs[k]);
    } else {
        assert(outs.take(0) =~= Seq::<Seq<Seq<u8>>>::empty());
    }
}

/// On one connection, a run of requests for methods without streams is answered
/// one reply per request, and the k-th frame sent is the reply to the k-th request.
pub proof fn lemma_replies_in_request_order(
    ms: Seq<MethodView>,
    ps: Seq<PendingView>,
    cs: Seq<Seq<Call>>,
    msgs: Seq<Seq<u8>>,
    outs: Seq<Seq<Seq<u8>>>,
)
    requires
        run_spec(ms, ps, cs, msgs, outs),
        ps[0] is None,
        forall|k: int| 0 <= k < msgs.len() ==> single_request(ms, #[trigger] msgs[k]),
    ensures
        sent(outs).len() == msgs.len(),
        forall|k: int|
            0 <= k < msgs.len() ==> (#[trigger] outs[k]).len() == 1 && sent(outs)[k] == outs[k][0],
{
    lemma_single_requests_prefix(ms, ps, cs, msgs, outs, msgs.len() as int);
    assert(outs.take(msgs.len() as int) =~= outs);
}

proof fn lemma_stream_prefix(
    ms: Seq<MethodView>,
    ps: Seq<PendingView>,
    cs: Seq<Seq<Call>>,
    msgs: Seq<Seq<u8>>,
    outs: Seq<Seq<Seq<u8>>>,
    i: nat,
    n: int,
    j: int,
)
    requires
        run_spec(ms, ps, cs, msgs, outs),
        ps[0] is None,
        msgs.len() == n + 2,
        route_spec(ms, msgs[0]) matches RouteView::Open { method, .. } && method == i,
        i < ms.len(),
        ms[i as int].client_streaming,
        forall|k: int| 1 <= k <= n ==> element_spec(#[trigger] msgs[k]) is Some,
        1 <= j <= n + 1,
    ensures
        ps[j] == Some((i, Seq::new((j - 1) as nat, |k: int| element_spec(msgs[k + 1])->Some_0))),
        cs[j] == cs[0],
        forall|k: int| 0 <= k < j ==> (#[trigger] outs[k]).len() == 0,
    decreases j,
{
    let z: int = 0;
    assert(next_spec(ms, ps[z], cs[z], msgs[z], ps[z + 1], cs[z + 1], outs[z]));
    if j > 1 {
        lemma_stream_prefix(ms, ps, cs, msgs, outs, i, n, j - 1);
        let k = j - 1;
        assert(next_spec(ms, ps[k], cs[k], msgs[k], ps[k + 1], cs[k + 1], outs[k]));
        assert(element_spec(msgs[k]) is Some);
        assert(Seq::new((k - 1) as nat, |x: int| element_spec(msgs[x + 1])->Some_0).push(
            element_spec(msgs[k])->Some_0,
        ) =~= Seq::new((j - 1) as nat, |x: int| element_spec(msgs[x + 1])->Some_0));
    } else {
        assert(Seq::<Result<Seq<u8>, Status>>::empty() =~= Seq::new(
            0,
            |x: int| element_spec(msgs[x + 1])->Some_0,
        ));
    }
}

/// A client stream of `n` frames, then its end: the operation is invoked exactly
/// once, when the end arrives, with `n` elements, the k-th read from the k-th
/// frame (a frame that cannot be read gives `Err(RequestDecodeError)` there and
/// nowhere else); nothing is sent before the end, and one answer after it.
pub proof fn lemma_client_stream_elements(
    ms: Seq<MethodView>,
    ps: Seq<PendingView>,
    cs: Seq<Seq<Call>>,
    msgs: Seq<Seq<u8>>,
    outs: Seq<Seq<Seq<u8>>>,
    i: nat,
    n: int,
)
    requires
        run_spec(ms, ps, cs, msgs, outs),
        ps[0] is None,
        msgs.len() == n + 2,
        n >= 0,
        route_spec(ms, msgs[0]) matches RouteView::Open { method, .. } && method == i,
        i < ms.len(),
        ms[i as int].client_streaming,
        forall|k: int| 1 <= k <= n ==> element_spec(#[trigger] msgs[k]) is Some,
        element_spec(msgs[n + 1]) is None,
    ensures
        cs[n + 2] == cs[0].push(
            Call { method: i, inputs: Seq::new(n as nat, |k: int| element_spec(msgs[k + 1])->Some_0) },
        ),
        ps[n + 2] is None,
        forall|k: int| 0 <= k <= n ==> (#[trigger] outs[k]).len() == 0,
        answers(ms[i as int], outs[n + 1]),
{
    lemma_stream_prefix(ms, ps, cs, msgs, outs, i, n, n + 1);
    let k = n + 1;
    assert(next_spec(ms, ps[k], cs[k], msgs[k], ps[k + 1], cs[k + 1], outs[k]));
}

} // verus!
