use vstd::prelude::*;
use crate::session::{
    after, emitted, request, Ipv4Address, SessionAction, SessionConfig, SessionEnd, SessionEvent,
    SessionPhase,
};

verus! {

/// The phase reached from `p` after the events `evs`, in order.
pub open spec fn run(p: SessionPhase, evs: Seq<SessionEvent>) -> SessionPhase
    decreases evs.len(),
{
    if evs.len() == 0 {
        p
    } else {
        after(run(p, evs.drop_last()), evs.last())
    }
}

/// The actions answered to the events `evs`, one for each, from `p`.
pub open spec fn actions(cfg: SessionConfig, p: SessionPhase, evs: Seq<SessionEvent>) -> Seq<
    SessionAction,
>
    decreases evs.len(),
{
    if evs.len() == 0 {
        Seq::empty()
    } else {
        actions(cfg, p, evs.drop_last()).push(emitted(cfg, run(p, evs.drop_last()), evs.last()))
    }
}

/// Everything a new driver asks for: its first request, then one action per event.
pub open spec fn trace(cfg: SessionConfig, evs: Seq<SessionEvent>) -> Seq<SessionAction> {
    seq![request(cfg, SessionPhase::AwaitLink)] + actions(cfg, SessionPhase::AwaitLink, evs)
}

/// Sockets asked for in `t`.
pub open spec fn opens(t: Seq<SessionAction>) -> nat
    decreases t.len(),
{
    if t.len() == 0 {
        0
    } else {
        opens(t.drop_last()) + if t.last() is OpenSocket {
            1nat
        } else {
            0nat
        }
    }
}

/// Sockets released in `t`.
pub open spec fn closes(t: Seq<SessionAction>) -> nat
    decreases t.len(),
{
    if t.len() == 0 {
        0
    } else {
        closes(t.drop_last()) + if t.last() is Close {
            1nat
        } else {
            0nat
        }
    }
}

/// Connection attempts in `t`.
pub open spec fn connects(t: Seq<SessionAction>) -> nat
    decreases t.len(),
{
    if t.len() == 0 {
        0
    } else {
        connects(t.drop_last()) + if t.last() is Connect {
            1nat
        } else {
            0nat
        }
    }
}

/// Non-empty reads handed out in `t`.
pub open spec fn deliveries(t: Seq<SessionAction>) -> nat
    decreases t.len(),
{
    if t.len() == 0 {
        0
    } else {
        deliveries(t.drop_last()) + if t.last() is Deliver {
            1nat
        } else {
            0nat
        }
    }
}

/// A socket exists in `p`: it was asked for and not yet released.
pub open spec fn holds_socket(p: SessionPhase) -> bool {
    match p {
        SessionPhase::Opening | SessionPhase::Connecting | SessionPhase::Writing
        | SessionPhase::Reading | SessionPhase::Delivering(_) => true,
        _ => false,
    }
}

/// An action that uses the stack's sockets.
pub open spec fn is_socket_op(a: SessionAction) -> bool {
    match a {
        SessionAction::OpenSocket(_) | SessionAction::Connect(_) | SessionAction::WriteRequest
        | SessionAction::Read | SessionAction::Close(_) => true,
        _ => false,
    }
}

/// The readiness gate has not been passed in `p`.
pub open spec fn in_gate(p: SessionPhase) -> bool {
    match p {
        SessionPhase::AwaitLink | SessionPhase::LinkBackoff | SessionPhase::AwaitAddress
        | SessionPhase::AddressBackoff => true,
        _ => false,
    }
}

/// Among the first `n` events, the link was reported up, and later an address.
pub open spec fn ready_before(evs: Seq<SessionEvent>, n: int) -> bool {
    exists|i1: int, i2: int|
        #![trigger evs[i1], evs[i2]]
        0 <= i1 < i2 < n && evs[i1] == SessionEvent::Link(true) && (
        evs[i2] matches SessionEvent::Address(a) && a is Some)
}

/// Right before `t[j]`, ignoring `Hold`s, the driver asked for a pause of at least `ms`.
pub open spec fn paced_before(t: Seq<SessionAction>, j: int, ms: u64) -> bool {
    exists|k: int|
        0 <= k < j && (#[trigger] t[k] matches SessionAction::Sleep(d) && d >= ms) && forall|
            m: int,
        |
            k < m < j ==> t[m] == SessionAction::Hold
}

/// `t[k]` is the last action of `t` other than `Hold`.
pub open spec fn last_request_at(t: Seq<SessionAction>, k: int) -> bool {
    0 <= k < t.len() && t[k] != SessionAction::Hold && forall|m: int|
        k < m < t.len() ==> #[trigger] t[m] == SessionAction::Hold
}

proof fn lemma_run_push(cfg: SessionConfig, p: SessionPhase, evs: Seq<SessionEvent>, e: SessionEvent)
    ensures
        run(p, evs.push(e)) == after(run(p, evs), e),
        actions(cfg, p, evs.push(e)) == actions(cfg, p, evs).push(emitted(cfg, run(p, evs), e)),
{
    assert(evs.push(e).drop_last() =~= evs);
}

proof fn lemma_actions_len(cfg: SessionConfig, p: SessionPhase, evs: Seq<SessionEvent>)
    ensures
        actions(cfg, p, evs).len() == evs.len(),
    decreases evs.len(),
{
    if evs.len() > 0 {
        lemma_actions_len(cfg, p, evs.drop_last());
    }
}

proof fn lemma_trace_push(cfg: SessionConfig, evs: Seq<SessionEvent>, e: SessionEvent)
    ensures
        trace(cfg, evs.push(e)) == trace(cfg, evs).push(
            emitted(cfg, run(SessionPhase::AwaitLink, evs), e),
        ),
        trace(cfg, evs).len() == evs.len() + 1,
{
    lemma_run_push(cfg, SessionPhase::AwaitLink, evs, e);
    lemma_actions_len(cfg, SessionPhase::AwaitLink, evs);
    assert(trace(cfg, evs.push(e)) =~= trace(cfg, evs).push(
        emitted(cfg, run(SessionPhase::AwaitLink, evs), e),
    ));
}

proof fn lemma_counts_push(t: Seq<SessionAction>, x: SessionAction)
    ensures
        opens(t.push(x)) == opens(t) + if x is OpenSocket { 1nat } else { 0nat },
        closes(t.push(x)) == closes(t) + if x is Close { 1nat } else { 0nat },
        connects(t.push(x)) == connects(t) + if x is Connect { 1nat } else { 0nat },
        deliveries(t.push(x)) == deliveries(t) + if x is Deliver { 1nat } else { 0nat },
{
    assert(t.push(x).drop_last() =~= t);
}

/// No socket leaks: along any run of a new driver, sockets are asked for and
/// released in turn, so that at every point at most one is open, and one is
/// open exactly while the driver is in an attempt.
pub proof fn socket_never_leaks(cfg: SessionConfig, evs: Seq<SessionEvent>)
    ensures
        opens(trace(cfg, evs)) == closes(trace(cfg, evs)) + if holds_socket(
            run(SessionPhase::AwaitLink, evs),
        ) {
            1int
        } else {
            0int
        },
        forall|i: int|
            0 <= i <= trace(cfg, evs).len() ==> {
                let u = #[trigger] trace(cfg, evs).take(i);
                closes(u) <= opens(u) <= closes(u) + 1
            },
    decreases evs.len(),
{
    if evs.len() == 0 {
        let t = trace(cfg, evs);
        assert(t =~= seq![SessionAction::PollLink]);
        assert(t.take(0) =~= Seq::<SessionAction>::empty());
        assert(t.take(1) =~= t);
        assert(t =~= Seq::<SessionAction>::empty().push(SessionAction::PollLink));
        lemma_counts_push(Seq::<SessionAction>::empty(), SessionAction::PollLink);
    } else {
        let pre = evs.drop_last();
        let e = evs.last();
        assert(pre.push(e) =~= evs);
        socket_never_leaks(cfg, pre);
        lemma_trace_push(cfg, pre, e);
        let t = trace(cfg, pre);
        let p = run(SessionPhase::AwaitLink, pre);
        let x = emitted(cfg, p, e);
        lemma_run_push(cfg, SessionPhase::AwaitLink, pre, e);
        lemma_counts_push(t, x);
        let t2 = trace(cfg, evs);
        assert(t2 == t.push(x));
        assert forall|i: int| 0 <= i <= t2.len() implies {
            let u = #[trigger] t2.take(i);
            closes(u) <= opens(u) <= closes(u) + 1
        } by {
            if i < t2.len() {
                assert(t2.take(i) =~= t.take(i));
            } else {
                assert(t2.take(i) =~= t2);
            }
        }
    }
}

/// Pacing: along any run of a new driver, every socket is asked for right
/// after a pause of at least the pacing interval (with only `Hold`s between),
/// so even immediate connect failures cannot loop faster than that.
pub proof fn attempts_are_paced(cfg: SessionConfig, evs: Seq<SessionEvent>)
    ensures
        forall|j: int|
            0 <= j < trace(cfg, evs).len() && (#[trigger] trace(cfg, evs)[j]) is OpenSocket
                ==> paced_before(trace(cfg, evs), j, cfg.pacing_ms),
{
    lemma_last_request(cfg, evs);
}

proof fn lemma_last_request(cfg: SessionConfig, evs: Seq<SessionEvent>)
    ensures
        exists|k: int|
            last_request_at(trace(cfg, evs), k) && trace(cfg, evs)[k] == request(
                cfg,
                run(SessionPhase::AwaitLink, evs),
            ),
        forall|j: int|
            0 <= j < trace(cfg, evs).len() && (#[trigger] trace(cfg, evs)[j]) is OpenSocket
                ==> paced_before(trace(cfg, evs), j, cfg.pacing_ms),
    decreases evs.len(),
{
    if evs.len() == 0 {
        let t = trace(cfg, evs);
        assert(t =~= seq![SessionAction::PollLink]);
        assert(last_request_at(t, 0));
    } else {
        let pre = evs.drop_last();
        let e = evs.last();
        assert(pre.push(e) =~= evs);
        lemma_last_request(cfg, pre);
        lemma_trace_push(cfg, pre, e);
        lemma_run_push(cfg, SessionPhase::AwaitLink, pre, e);
        let t = trace(cfg, pre);
        let p = run(SessionPhase::AwaitLink, pre);
        let x = emitted(cfg, p, e);
        let t2 = trace(cfg, evs);
        assert(t2 == t.push(x));
        let k = choose|k: int| last_request_at(t, k) && t[k] == request(cfg, p);
        if x == SessionAction::Hold {
            assert(last_request_at(t2, k));
        } else {
            assert(last_request_at(t2, t.len() as int));
        }
        assert forall|j: int|
            0 <= j < t2.len() && (#[trigger] t2[j]) is OpenSocket implies paced_before(
                t2,
                j,
                cfg.pacing_ms,
            ) by {
            if j < t.len() {
                assert(t[j] is OpenSocket);
                let k2 = choose|k2: int|
                    0 <= k2 < j && (#[trigger] t[k2] matches SessionAction::Sleep(d) && d >= cfg.pacing_ms)
                        && forall|m: int| k2 < m < j ==> t[m] == SessionAction::Hold;
                assert(forall|m: int| k2 < m < j ==> t2[m] == t[m]);
                assert(t2[k2] == t[k2]);
                assert(forall|m: int| k2 < m < j ==> #[trigger] t2[m] == SessionAction::Hold);
            } else {
                assert(p == SessionPhase::Pacing);
                assert(t2[k] == t[k]);
                assert(t[k] == SessionAction::Sleep(cfg.pacing_ms));
                assert(forall|m: int| k < m < j ==> t2[m] == t[m]);
                assert(forall|m: int| k < m < j ==> #[trigger] t2[m] == SessionAction::Hold);
            }
        }
    }
}

/// Readiness gate: along any run of a new driver, an action that uses a socket
/// (the answer to event `j - 1`) comes only after the link was reported up and,
/// later, an address was reported, both among the events before `j - 1`.
pub proof fn no_socket_before_ready(cfg: SessionConfig, evs: Seq<SessionEvent>)
    ensures
        forall|j: int|
            0 <= j < trace(cfg, evs).len() && is_socket_op(#[trigger] trace(cfg, evs)[j]) ==> 1
                <= j && ready_before(evs, j - 1),
    decreases evs.len(),
{
    lemma_gate(cfg, evs);
}

proof fn lemma_gate(cfg: SessionConfig, evs: Seq<SessionEvent>)
    ensures
        !in_gate(run(SessionPhase::AwaitLink, evs)) ==> ready_before(evs, evs.len() as int),
        (run(SessionPhase::AwaitLink, evs) is AwaitAddress || run(SessionPhase::AwaitLink, evs) is AddressBackoff)
            ==> exists|i: int| 0 <= i < evs.len() && #[trigger] evs[i] == SessionEvent::Link(true),
        forall|j: int|
            0 <= j < trace(cfg, evs).len() && is_socket_op(#[trigger] trace(cfg, evs)[j]) ==> 1
                <= j && ready_before(evs, j - 1),
    decreases evs.len(),
{
    if evs.len() == 0 {
        let t = trace(cfg, evs);
        assert(t =~= seq![SessionAction::PollLink]);
    } else {
        let pre = evs.drop_last();
        let e = evs.last();
        assert(pre.push(e) =~= evs);
        lemma_gate(cfg, pre);
        lemma_trace_push(cfg, pre, e);
        lemma_run_push(cfg, SessionPhase::AwaitLink, pre, e);
        let t = trace(cfg, pre);
        let p = run(SessionPhase::AwaitLink, pre);
        let x = emitted(cfg, p, e);
        let t2 = trace(cfg, evs);
        let q = run(SessionPhase::AwaitLink, evs);
        assert(t2 == t.push(x));
        assert(forall|i: int| 0 <= i < pre.len() ==> evs[i] == pre[i]);
        if !in_gate(p) {
            let (i1, i2) = choose|i1: int, i2: int|
                #![trigger pre[i1], pre[i2]]
                0 <= i1 < i2 < pre.len() && pre[i1] == SessionEvent::Link(true) && (
                pre[i2] matches SessionEvent::Address(a) && a is Some);
            assert(evs[i1] == pre[i1] && evs[i2] == pre[i2]);
            assert(ready_before(evs, evs.len() as int));
        } else if !in_gate(q) {
            assert(p is AwaitAddress);
            let i1 = choose|i: int| 0 <= i < pre.len() && #[trigger] pre[i] == SessionEvent::Link(true);
            assert(evs[i1] == pre[i1]);
            assert(evs[pre.len() as int] == e);
            assert(ready_before(evs, evs.len() as int));
        }
        if q is AwaitAddress || q is AddressBackoff {
            if p is AwaitLink {
                assert(evs[pre.len() as int] == SessionEvent::Link(true));
            } else {
                let i1 = choose|i: int| 0 <= i < pre.len() && #[trigger] pre[i] == SessionEvent::Link(true);
                assert(evs[i1] == pre[i1]);
            }
        }
        assert forall|j: int|
            0 <= j < t2.len() && is_socket_op(#[trigger] t2[j]) implies 1 <= j && ready_before(evs, j - 1) by {
            if j < t.len() {
                assert(t2[j] == t[j]);
                let (i1, i2) = choose|i1: int, i2: int|
                    #![trigger pre[i1], pre[i2]]
                    0 <= i1 < i2 < j - 1 && pre[i1] == SessionEvent::Link(true) && (
                    pre[i2] matches SessionEvent::Address(a) && a is Some);
                assert(evs[i1] == pre[i1] && evs[i2] == pre[i2]);
            } else {
                assert(!in_gate(p));
                let (i1, i2) = choose|i1: int, i2: int|
                    #![trigger pre[i1], pre[i2]]
                    0 <= i1 < i2 < pre.len() && pre[i1] == SessionEvent::Link(true) && (
                    pre[i2] matches SessionEvent::Address(a) && a is Some);
                assert(evs[i1] == pre[i1] && evs[i2] == pre[i2]);
            }
        }
    }
}

/// Events of a new driver that passes its gate with address `a`, then sees
/// `k` connect failures, each followed by the socket's release, the pacing
/// pause and a new socket.
pub open spec fn failing_connects(a: Ipv4Address, k: nat) -> Seq<SessionEvent>
    decreases k,
{
    if k == 0 {
        seq![
            SessionEvent::Link(true),
            SessionEvent::Address(Some(a)),
            SessionEvent::Elapsed,
            SessionEvent::Opened,
        ]
    } else {
        failing_connects(a, (k - 1) as nat).push(SessionEvent::ConnectFailed).push(
            SessionEvent::Closed,
        ).push(SessionEvent::Elapsed).push(SessionEvent::Opened)
    }
}

/// Received byte counts, each handed out in turn.
pub open spec fn deliveries_of(ns: Seq<usize>) -> Seq<SessionEvent>
    decreases ns.len(),
{
    if ns.len() == 0 {
        Seq::empty()
    } else {
        deliveries_of(ns.drop_last()).push(SessionEvent::Received(ns.last())).push(
            SessionEvent::Delivered,
        )
    }
}

proof fn lemma_extend(cfg: SessionConfig, evs: Seq<SessionEvent>, e: SessionEvent)
    ensures
        run(SessionPhase::AwaitLink, evs.push(e)) == after(run(SessionPhase::AwaitLink, evs), e),
        trace(cfg, evs.push(e)) == trace(cfg, evs).push(
            emitted(cfg, run(SessionPhase::AwaitLink, evs), e),
        ),
        connects(trace(cfg, evs.push(e))) == connects(trace(cfg, evs)) + if emitted(
            cfg,
            run(SessionPhase::AwaitLink, evs),
            e,
        ) is Connect {
            1nat
        } else {
            0nat
        },
{
    lemma_run_push(cfg, SessionPhase::AwaitLink, evs, e);
    lemma_trace_push(cfg, evs, e);
    lemma_counts_push(trace(cfg, evs), emitted(cfg, run(SessionPhase::AwaitLink, evs), e));
}

proof fn lemma_failing_connects(cfg: SessionConfig, a: Ipv4Address, k: nat)
    ensures
        run(SessionPhase::AwaitLink, failing_connects(a, k)) == SessionPhase::Connecting,
        connects(trace(cfg, failing_connects(a, k))) == k + 1,
    decreases k,
{
    let e0 = seq![SessionEvent::Link(true)];
    let e1 = e0.push(SessionEvent::Address(Some(a)));
    let e2 = e1.push(SessionEvent::Elapsed);
    if k == 0 {
        let t0 = trace(cfg, Seq::empty());
        assert(t0 =~= seq![SessionAction::PollLink]);
        assert(Seq::<SessionAction>::empty().push(SessionAction::PollLink) =~= t0);
        assert(Seq::<SessionEvent>::empty().push(SessionEvent::Link(true)) =~= e0);
        lemma_extend(cfg, Seq::empty(), SessionEvent::Link(true));
        lemma_counts_push(Seq::<SessionAction>::empty(), SessionAction::PollLink);
        lemma_extend(cfg, e0, SessionEvent::Address(Some(a)));
        lemma_extend(cfg, e1, SessionEvent::Elapsed);
        lemma_extend(cfg, e2, SessionEvent::Opened);
        assert(e2.push(SessionEvent::Opened) =~= failing_connects(a, k));
    } else {
        let f = failing_connects(a, (k - 1) as nat);
        lemma_failing_connects(cfg, a, (k - 1) as nat);
        let f1 = f.push(SessionEvent::ConnectFailed);
        let f2 = f1.push(SessionEvent::Closed);
        let f3 = f2.push(SessionEvent::Elapsed);
        lemma_extend(cfg, f, SessionEvent::ConnectFailed);
        lemma_extend(cfg, f1, SessionEvent::Closed);
        lemma_extend(cfg, f2, SessionEvent::Elapsed);
        lemma_extend(cfg, f3, SessionEvent::Opened);
    }
}

/// Retry on connect failure: a driver whose connects fail `k` times and then
/// succeed makes exactly `k + 1` connection attempts and asks to write the
/// request right after the last one.
pub proof fn connect_retried_until_success(cfg: SessionConfig, a: Ipv4Address, k: nat)
    ensures
        ({
            let evs = failing_connects(a, k).push(SessionEvent::Connected);
            &&& connects(trace(cfg, evs)) == k + 1
            &&& trace(cfg, evs).last() == SessionAction::WriteRequest
            &&& run(SessionPhase::AwaitLink, evs) == SessionPhase::Writing
        }),
{
    lemma_failing_connects(cfg, a, k);
    lemma_extend(cfg, failing_connects(a, k), SessionEvent::Connected);
}

proof fn lemma_deliveries(cfg: SessionConfig, ns: Seq<usize>)
    requires
        forall|i: int| 0 <= i < ns.len() ==> #[trigger] ns[i] > 0,
    ensures
        run(SessionPhase::Reading, deliveries_of(ns)) == SessionPhase::Reading,
        deliveries(actions(cfg, SessionPhase::Reading, deliveries_of(ns))) == ns.len(),
        closes(actions(cfg, SessionPhase::Reading, deliveries_of(ns))) == 0,
    decreases ns.len(),
{
    if ns.len() > 0 {
        let pre = ns.drop_last();
        assert forall|i: int| 0 <= i < pre.len() implies #[trigger] pre[i] > 0 by {
            assert(pre[i] == ns[i]);
        }
        lemma_deliveries(cfg, pre);
        let d = deliveries_of(pre);
        let d1 = d.push(SessionEvent::Received(ns.last()));
        lemma_run_push(cfg, SessionPhase::Reading, d, SessionEvent::Received(ns.last()));
        lemma_run_push(cfg, SessionPhase::Reading, d1, SessionEvent::Delivered);
        let a0 = actions(cfg, SessionPhase::Reading, d);
        let a1 = actions(cfg, SessionPhase::Reading, d1);
        lemma_counts_push(a0, a1.last());
        lemma_counts_push(a1, SessionAction::Read);
        assert(a1.drop_last() =~= a0);
        assert(ns[ns.len() - 1] > 0);
    }
}

/// End of stream: from a read under way, any number of non-empty reads, each
/// handed out, and then an empty read end the attempt cleanly: exactly one
/// hand-out per non-empty read, the socket released once, for end of stream,
/// and the cool-down pause after that.
pub proof fn eof_ends_attempt_cleanly(cfg: SessionConfig, ns: Seq<usize>)
    requires
        forall|i: int| 0 <= i < ns.len() ==> #[trigger] ns[i] > 0,
    ensures
        ({
            let evs = deliveries_of(ns).push(SessionEvent::Received(0));
            let t = actions(cfg, SessionPhase::Reading, evs);
            &&& deliveries(t) == ns.len()
            &&& closes(t) == 1
            &&& t.last() == SessionAction::Close(SessionEnd::Eof)
            &&& run(SessionPhase::Reading, evs) == SessionPhase::Closing(SessionEnd::Eof)
            &&& emitted(cfg, run(SessionPhase::Reading, evs), SessionEvent::Closed)
                == SessionAction::Sleep(cfg.cooldown_ms)
        }),
{
    lemma_deliveries(cfg, ns);
    let d = deliveries_of(ns);
    lemma_run_push(cfg, SessionPhase::Reading, d, SessionEvent::Received(0));
    lemma_counts_push(
        actions(cfg, SessionPhase::Reading, d),
        SessionAction::Close(SessionEnd::Eof),
    );
}

} // verus!
