//! The forwarding loop: drain newly available bytes from a consumer ring
//! channel and hand them, byte-exact and in order, to the downstream sink.
//!
//! One poll of the ring yields a chunk of bytes, a timeout, or a fatal
//! error. A timeout is normal idling: nothing is emitted and the loop goes
//! on. Any other error ends the loop for good — no retry, no reattach. The
//! model of a whole run is a sequence of such poll outcomes, and
//! [`forward_output`] says which bytes the sink receives for it; the laws
//! below state byte fidelity, timeout transparency and fatal propagation
//! over that model.

use vstd::prelude::*;

use nscldaq_ringbuffer::ringbuffer::consumer;

use crate::errors::Error;

verus! {

/// One poll outcome, as the model sees it: a chunk of delivered bytes, an
/// idle timeout, or a fatal channel error.
pub enum PollModel {
    Chunk(Seq<u8>),
    Quiet,
    Broken,
}

/// The bytes the sink receives for a run of poll outcomes: chunks are
/// emitted in order, idle polls emit nothing, and the first fatal outcome
/// stops the run — nothing from it or after it is emitted.
pub open spec fn forward_output(t: Seq<PollModel>) -> Seq<u8>
    decreases t.len(),
{
    if t.len() == 0 {
        Seq::empty()
    } else {
        match t[0] {
            PollModel::Chunk(b) => b + forward_output(t.drop_first()),
            PollModel::Quiet => forward_output(t.drop_first()),
            PollModel::Broken => Seq::empty(),
        }
    }
}

/// All bytes the ring delivered over a run, fatal or not: the
/// concatenation, in poll order, of every chunk.
pub open spec fn injected(t: Seq<PollModel>) -> Seq<u8>
    decreases t.len(),
{
    if t.len() == 0 {
        Seq::empty()
    } else {
        match t[0] {
            PollModel::Chunk(b) => b + injected(t.drop_first()),
            _ => injected(t.drop_first()),
        }
    }
}

/// Whether a run of poll outcomes ends the loop: it does exactly when some
/// outcome is fatal.
pub open spec fn terminates(t: Seq<PollModel>) -> bool
    decreases t.len(),
{
    if t.len() == 0 {
        false
    } else {
        t[0] is Broken || terminates(t.drop_first())
    }
}

/// How one more poll outcome extends a healthy run: a chunk appends its
/// bytes, anything else emits nothing, and only a fatal outcome terminates.
proof fn lemma_forward_output_push(t: Seq<PollModel>, x: PollModel)
    requires
        !terminates(t),
    ensures
        forward_output(t.push(x)) == (match x {
            PollModel::Chunk(b) => forward_output(t) + b,
            _ => forward_output(t),
        }),
        injected(t.push(x)) == (match x {
            PollModel::Chunk(b) => injected(t) + b,
            _ => injected(t),
        }),
        terminates(t.push(x)) == (x is Broken),
    decreases t.len(),
{
    let s = t.push(x);
    if t.len() == 0 {
        assert(s =~= seq![x]);
        assert(s[0] == x);
        assert(s.drop_first() =~= Seq::<PollModel>::empty());
        assert(!terminates(s.drop_first()));
        assert(terminates(s) == (s[0] is Broken || terminates(s.drop_first())));
        match x {
            PollModel::Chunk(b) => {
                assert(forward_output(s) == b + forward_output(s.drop_first()));
                assert(injected(s) == b + injected(s.drop_first()));
                assert(b + Seq::<u8>::empty() =~= b);
                assert(forward_output(t) + b =~= b);
                assert(injected(t) + b =~= b);
            },
            PollModel::Quiet => {
                assert(forward_output(s) == forward_output(s.drop_first()));
                assert(injected(s) == injected(s.drop_first()));
            },
            PollModel::Broken => {
                assert(forward_output(s) == Seq::<u8>::empty());
                assert(injected(s) == injected(s.drop_first()));
            },
        }
    } else {
        assert(s[0] == t[0]);
        assert(s.drop_first() =~= t.drop_first().push(x));
        lemma_forward_output_push(t.drop_first(), x);
        assert(terminates(s) == (s[0] is Broken || terminates(s.drop_first())));
        match t[0] {
            PollModel::Chunk(b) => {
                assert(forward_output(s) == b + forward_output(s.drop_first()));
                assert(forward_output(t) == b + forward_output(t.drop_first()));
                assert(injected(s) == b + injected(s.drop_first()));
                assert(injected(t) == b + injected(t.drop_first()));
                match x {
                    PollModel::Chunk(c) => {
                        assert(b + (forward_output(t.drop_first()) + c) =~= (b + forward_output(
                            t.drop_first(),
                        )) + c);
                        assert(b + (injected(t.drop_first()) + c) =~= (b + injected(
                            t.drop_first(),
                        )) + c);
                    },
                    PollModel::Quiet => {},
                    PollModel::Broken => {},
                }
            },
            PollModel::Quiet => {
                assert(forward_output(s) == forward_output(s.drop_first()));
                assert(injected(s) == injected(s.drop_first()));
            },
            PollModel::Broken => {},
        }
    }
}

/// Round-trip byte fidelity: as long as no poll fails fatally, the bytes
/// the sink receives are exactly the bytes the ring delivered,
/// concatenated in poll order — nothing lost, nothing duplicated, however
/// the writes were segmented across polls.
pub proof fn lemma_round_trip(t: Seq<PollModel>)
    requires
        !terminates(t),
    ensures
        forward_output(t) == injected(t),
    decreases t.len(),
{
    if t.len() > 0 {
        lemma_round_trip(t.drop_first());
    }
}

/// Timeout transparency: an idle poll anywhere in the run changes neither
/// the bytes the sink receives nor whether the loop terminates — forwarding
/// simply resumes with the outcomes that follow.
pub proof fn lemma_timeout_transparency(t1: Seq<PollModel>, t2: Seq<PollModel>)
    ensures
        forward_output(t1 + seq![PollModel::Quiet] + t2) == forward_output(t1 + t2),
        terminates(t1 + seq![PollModel::Quiet] + t2) == terminates(t1 + t2),
    decreases t1.len(),
{
    if t1.len() == 0 {
        assert(t1 + seq![PollModel::Quiet] + t2 =~= seq![PollModel::Quiet] + t2);
        assert((seq![PollModel::Quiet] + t2).drop_first() =~= t2);
        assert(t1 + t2 =~= t2);
    } else {
        let u1 = t1.drop_first();
        assert((t1 + seq![PollModel::Quiet] + t2).drop_first() =~= u1 + seq![PollModel::Quiet]
            + t2);
        assert((t1 + t2).drop_first() =~= u1 + t2);
        assert((t1 + seq![PollModel::Quiet] + t2)[0] == t1[0]);
        assert((t1 + t2)[0] == t1[0]);
        lemma_timeout_transparency(u1, t2);
    }
}

/// An idle stretch of any length — nothing but timeouts — emits no bytes
/// and does not terminate the loop; forwarding resumes with whatever
/// follows it (see [`lemma_timeout_transparency`]).
pub proof fn lemma_idle_run(t: Seq<PollModel>)
    requires
        forall|k: int| 0 <= k < t.len() ==> t[k] is Quiet,
    ensures
        forward_output(t) == Seq::<u8>::empty(),
        !terminates(t),
    decreases t.len(),
{
    if t.len() > 0 {
        assert(forall|k: int| 0 <= k < t.drop_first().len() ==> t.drop_first()[k] is Quiet);
        lemma_idle_run(t.drop_first());
    }
}

/// Fatal propagation: a fatal poll ends the run with every byte from the
/// earlier successful polls forwarded, and nothing from the fatal poll or
/// from anything after it.
pub proof fn lemma_fatal_propagation(t1: Seq<PollModel>, t2: Seq<PollModel>)
    requires
        !terminates(t1),
    ensures
        forward_output(t1 + seq![PollModel::Broken] + t2) == injected(t1),
        terminates(t1 + seq![PollModel::Broken] + t2),
    decreases t1.len(),
{
    if t1.len() == 0 {
        assert(t1 + seq![PollModel::Broken] + t2 =~= seq![PollModel::Broken] + t2);
    } else {
        let u1 = t1.drop_first();
        assert((t1 + seq![PollModel::Broken] + t2).drop_first() =~= u1 + seq![PollModel::Broken]
            + t2);
        assert((t1 + seq![PollModel::Broken] + t2)[0] == t1[0]);
        lemma_fatal_propagation(u1, t2);
    }
}

/// One recorded poll outcome: the bytes a successful poll delivered, a
/// timeout, or a fatal error with its detail.
pub enum PollEvent {
    Data(Vec<u8>),
    Timeout,
    Fatal(String),
}

impl View for PollEvent {
    type V = PollModel;

    open spec fn view(&self) -> PollModel {
        match self {
            PollEvent::Data(bytes) => PollModel::Chunk(bytes@),
            PollEvent::Timeout => PollModel::Quiet,
            PollEvent::Fatal(_) => PollModel::Broken,
        }
    }
}

/// The model run of a recorded sequence of poll events.
pub open spec fn trace_of(events: Seq<PollEvent>) -> Seq<PollModel> {
    events.map_values(|e: PollEvent| e@)
}

/// Append every byte of `chunk` to `out`, in order.
fn append_bytes(out: &mut Vec<u8>, chunk: &Vec<u8>)
    ensures
        final(out)@ == old(out)@ + chunk@,
{
    let mut i: usize = 0;
    while i < chunk.len()
        invariant
            0 <= i <= chunk@.len(),
            out@ == old(out)@ + chunk@.subrange(0, i as int),
        decreases chunk@.len() - i,
    {
        out.push(chunk[i]);
        proof {
            assert(old(out)@ + chunk@.subrange(0, i as int) + seq![chunk@[i as int]] =~= old(
                out,
            )@ + chunk@.subrange(0, i + 1));
        }
        i = i + 1;
    }
    proof {
        assert(old(out)@ + chunk@.subrange(0, chunk@.len() as int) =~= old(out)@ + chunk@);
    }
}

/// Replay a recorded run of poll events exactly as the forwarding loop
/// treats the live channel: chunks are forwarded in order, timeouts
/// forward nothing, and the first fatal event stops the run. Returns the
/// forwarded bytes and whether the run was terminated by a fatal event.
pub fn forwarded_bytes(events: &Vec<PollEvent>) -> (r: (Vec<u8>, bool))
    ensures
        r.0@ == forward_output(trace_of(events@)),
        r.1 == terminates(trace_of(events@)),
{
    let mut out: Vec<u8> = Vec::new();
    let mut i: usize = 0;
    while i < events.len()
        invariant
            0 <= i <= events@.len(),
            !terminates(trace_of(events@.take(i as int))),
            out@ == forward_output(trace_of(events@.take(i as int))),
        decreases events@.len() - i,
    {
        let ghost pre = trace_of(events@.take(i as int));
        proof {
            assert(trace_of(events@.take(i + 1)) =~= pre.push(events@[i as int]@));
            lemma_forward_output_push(pre, events@[i as int]@);
        }
        match &events[i] {
            PollEvent::Data(bytes) => {
                append_bytes(&mut out, bytes);
            },
            PollEvent::Timeout => {},
            PollEvent::Fatal(_) => {
                proof {
                    let sfx = trace_of(events@.skip(i + 1));
                    assert(trace_of(events@) =~= pre + seq![PollModel::Broken] + sfx);
                    lemma_fatal_propagation(pre, sfx);
                    lemma_round_trip(pre);
                }
                return (out, true);
            },
        }
        i = i + 1;
    }
    proof {
        assert(events@.take(events@.len() as int) =~= events@);
    }
    (out, false)
}

/// What one poll of the live ring channel reported: `n` bytes now sit at
/// the front of the buffer, nothing arrived within the deadline, or the
/// channel failed with the given detail.
pub enum PollStatus {
    Got(usize),
    TimedOut,
    Fatal(String),
}

/// Relies on `consumer::Consumer::timed_get`: waits up to the given number
/// of milliseconds for data, fills a front portion of `buf` and reports how
/// many bytes it placed there — never more than the buffer holds — or
/// reports the timeout; any other failure is rendered with
/// `consumer::error_string`. What arrives depends on the shared ring, so
/// nothing more is promised of the bytes.
#[verifier::external_body]
fn ring_poll(ring: &mut consumer::Consumer, buf: &mut Vec<u8>, timeout_ms: u64) -> (r: PollStatus)
    ensures
        final(buf)@.len() == old(buf)@.len(),
        r matches PollStatus::Got(n) ==> n <= final(buf)@.len(),
{
    match ring.timed_get(buf.as_mut_slice(), std::time::Duration::from_millis(timeout_ms)) {
        Ok(n) => PollStatus::Got(n),
        Err(consumer::Error::Timeout) => PollStatus::TimedOut,
        Err(e) => PollStatus::Fatal(consumer::error_string(&e)),
    }
}

/// Relies on `std::io::Stdout::write_all` (through `std::io::stdout`):
/// writes the first `n` bytes of `buf`, in order, to the process's
/// standard output — the downstream sink — reporting failure instead of
/// panicking. A short write surfaces as failure, never as partial success.
#[verifier::external_body]
fn write_sink(buf: &Vec<u8>, n: usize) -> (ok: bool)
    requires
        n <= buf@.len(),
{
    std::io::Write::write_all(&mut std::io::stdout(), &buf[0..n]).is_ok()
}

/// The reusable transfer buffer the forwarding loop polls into: one MiB,
/// the cap on what a single poll may deliver. The cap bounds single-poll
/// latency and memory use while letting large, infrequent ring activity
/// drain promptly.
pub fn transfer_buffer() -> (buf: Vec<u8>)
    ensures
        buf@.len() == 1024 * 1024,
{
    let mut buf: Vec<u8> = Vec::new();
    buf.resize(1024 * 1024, 0u8);
    buf
}

/// The detail a turn reports when the downstream sink refuses a write.
pub open spec fn sink_failure_chars() -> Seq<char> {
    "failed to write to the downstream sink"@
}

/// What one turn of the forwarding loop decides, given what the poll
/// reported and whether the sink accepted the write: `None` to keep
/// streaming, or the detail of the fatal condition that ends the stream.
/// A timeout keeps streaming whatever the sink flag says, since nothing
/// was written on an idle turn.
pub open spec fn step_verdict(status: PollStatus, sink_ok: bool) -> Option<Seq<char>> {
    match status {
        PollStatus::Got(_) => if sink_ok {
            None
        } else {
            Some(sink_failure_chars())
        },
        PollStatus::TimedOut => None,
        PollStatus::Fatal(detail) => Some(detail@),
    }
}

/// The forwarding loop's decision for one turn, exactly as
/// [`step_verdict`] states it: a timeout is normal idling and the stream
/// goes on; delivered bytes keep the stream going exactly when the sink
/// accepted them; any other channel outcome — or a refused write — ends
/// the stream with a fatal error carrying the detail.
pub fn classify_poll(status: PollStatus, sink_ok: bool) -> (r: Option<Error>)
    ensures
        r is Some <==> step_verdict(status, sink_ok) is Some,
        r matches Some(e) ==> (e matches Error::ForwardingFatalError(d) && Some(d@)
            == step_verdict(status, sink_ok)),
{
    match status {
        PollStatus::Got(_) => {
            if sink_ok {
                None
            } else {
                Some(
                    Error::ForwardingFatalError(
                        String::from_str("failed to write to the downstream sink"),
                    ),
                )
            }
        },
        PollStatus::TimedOut => None,
        PollStatus::Fatal(detail) => Some(Error::ForwardingFatalError(detail)),
    }
}

/// One turn of the forwarding loop: poll the ring with a one-millisecond
/// timeout into `buf`, forward exactly the bytes the poll delivered —
/// possibly none — to the downstream sink, and decide through
/// [`classify_poll`] whether the stream goes on. A timeout is normal
/// idling and forwards nothing. The turn yields `None` to keep streaming,
/// and the fatal error — a ring channel failure or a sink that refused a
/// write — that ends the stream for good otherwise.
///
/// The caller repeats this turn for as long as it yields `None`; the loop
/// itself never terminates on its own, which is why the turn, not the
/// loop, is what this library provides.
pub fn forward_step(ring: &mut consumer::Consumer, buf: &mut Vec<u8>) -> (r: Option<Error>)
    ensures
        final(buf)@.len() == old(buf)@.len(),
        r matches Some(e) ==> e is ForwardingFatalError,
{
    let status = ring_poll(ring, buf, 1);
    let sink_ok: bool = match &status {
        PollStatus::Got(n) => write_sink(buf, *n),
        PollStatus::TimedOut => true,
        PollStatus::Fatal(_) => true,
    };
    classify_poll(status, sink_ok)
}

} // verus!
