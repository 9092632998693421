//! The JSON-versus-Protobuf broker benchmark: the messages it sends, the latency it
//! observes, the totals it draws from them and the report it prints.

use vstd::prelude::*;

use crate::errors::AppError;
use crate::events::BenchmarkEvent;
use crate::number::{decimal, format_i64, format_usize};
use crate::text::{concat2, owned};

verus! {

/// A fresh random (version 4) UUID in its hyphenated lowercase form
/// (`uuid::Uuid::new_v4().to_string()`): 36 characters with hyphens at places 8, 13, 18
/// and 23. Which UUID comes out is chance, and is not stated.
#[verifier::external_body]
fn new_event_id() -> (res: String)
    ensures
        res@.len() == 36,
        res@[8] == '-' && res@[13] == '-' && res@[18] == '-' && res@[23] == '-',
{
    uuid::Uuid::new_v4().to_string()
}

/// What the consumer measured for one message.
#[derive(Debug, Clone, Copy)]
pub struct BenchmarkObservation {
    pub latency_ms: i64,
    pub payload_size_bytes: usize,
}

/// The message as the Protobuf schema holds it.
#[derive(Debug, Clone)]
pub struct ProtoBenchmarkEvent {
    pub event_id: String,
    pub sequence: i64,
    pub sent_at_ms: i64,
    pub payload: String,
}

/// The exact totals of a run, from which the averages are drawn.
#[derive(Debug, Clone, Copy)]
pub struct BenchmarkTotals {
    pub total_events: usize,
    pub latency_sum_ms: i128,
    pub payload_sum_bytes: u128,
    pub min_latency_ms: i64,
    pub max_latency_ms: i64,
}

/// One format's results as the report prints them; the averages come as the text
/// of the number rounded to two decimals.
#[derive(Debug, Clone)]
pub struct ReportSection {
    pub label: String,
    pub total_events: usize,
    pub avg_latency_ms: String,
    pub min_latency_ms: i64,
    pub max_latency_ms: i64,
    pub avg_payload_size_bytes: String,
}

/// The sum of the latencies.
pub open spec fn latency_sum(s: Seq<BenchmarkObservation>) -> int
    decreases s.len(),
{
    if s.len() == 0 {
        0
    } else {
        latency_sum(s.drop_last()) + s.last().latency_ms
    }
}

/// The sum of the payload sizes.
pub open spec fn payload_sum(s: Seq<BenchmarkObservation>) -> int
    decreases s.len(),
{
    if s.len() == 0 {
        0
    } else {
        payload_sum(s.drop_last()) + s.last().payload_size_bytes
    }
}

/// The smallest latency (`0` when there is none).
pub open spec fn min_latency(s: Seq<BenchmarkObservation>) -> i64
    decreases s.len(),
{
    if s.len() == 0 {
        0
    } else if s.len() == 1 {
        s[0].latency_ms
    } else {
        let m = min_latency(s.drop_last());
        if s.last().latency_ms < m {
            s.last().latency_ms
        } else {
            m
        }
    }
}

/// The largest latency (`0` when there is none).
pub open spec fn max_latency(s: Seq<BenchmarkObservation>) -> i64
    decreases s.len(),
{
    if s.len() == 0 {
        0
    } else if s.len() == 1 {
        s[0].latency_ms
    } else {
        let m = max_latency(s.drop_last());
        if s.last().latency_ms > m {
            s.last().latency_ms
        } else {
            m
        }
    }
}

/// The latency of a message sent at `sent_at_ms` and received at `received_at_ms`;
/// a clock that went backwards counts as no latency.
pub fn observation(sent_at_ms: i64, received_at_ms: i64, payload_size_bytes: usize) -> (res:
    BenchmarkObservation)
    requires
        i64::MIN <= received_at_ms - sent_at_ms <= i64::MAX,
    ensures
        res.latency_ms == if received_at_ms - sent_at_ms > 0 {
            received_at_ms - sent_at_ms
        } else {
            0
        },
        res.payload_size_bytes == payload_size_bytes,
{
    let d = received_at_ms - sent_at_ms;
    BenchmarkObservation { latency_ms: if d > 0 { d } else { 0 }, payload_size_bytes }
}

/// Records a received message: its latency from the time it was sent, and its size.
pub fn record_delivery(
    observations: &mut Vec<BenchmarkObservation>,
    sent_at_ms: i64,
    received_at_ms: i64,
    payload_size_bytes: usize,
)
    requires
        i64::MIN <= received_at_ms - sent_at_ms <= i64::MAX,
    ensures
        final(observations)@ == old(observations)@.push(
            BenchmarkObservation {
                latency_ms: if received_at_ms - sent_at_ms > 0 {
                    (received_at_ms - sent_at_ms) as i64
                } else {
                    0
                },
                payload_size_bytes,
            },
        ),
{
    let o = observation(sent_at_ms, received_at_ms, payload_size_bytes);
    observations.push(o);
}

/// The error when the broker closes the benchmark's consumer before every message came.
pub fn stream_ended_error() -> (res: AppError)
    ensures
        res matches AppError::Broker(m) && m@ == "Benchmark consumer stream ended unexpectedly"@,
{
    AppError::Broker(owned("Benchmark consumer stream ended unexpectedly"))
}

/// Whether the consumer has received every message it waits for.
pub fn consumption_complete(received: usize, expected: usize) -> (res: bool)
    ensures
        res == (received >= expected),
{
    received >= expected
}

/// The totals of a run: how many messages, the sums of their latencies and sizes, and
/// the smallest and largest latency (both `0` for an empty run).
pub fn summarize_totals(observations: &Vec<BenchmarkObservation>) -> (res: BenchmarkTotals)
    ensures
        res.total_events == observations@.len(),
        res.latency_sum_ms == latency_sum(observations@),
        res.payload_sum_bytes == payload_sum(observations@),
        res.min_latency_ms == min_latency(observations@),
        res.max_latency_ms == max_latency(observations@),
{
    let n = observations.len();
    let mut lsum: i128 = 0;
    let mut psum: u128 = 0;
    let mut lo: i64 = 0;
    let mut hi: i64 = 0;
    let mut i: usize = 0;
    while i < n
        invariant
            i <= n == observations@.len(),
            lsum == latency_sum(observations@.take(i as int)),
            psum == payload_sum(observations@.take(i as int)),
            lo == min_latency(observations@.take(i as int)),
            hi == max_latency(observations@.take(i as int)),
            -(i as int) * 0x8000_0000_0000_0000 <= lsum <= (i as int) * 0x8000_0000_0000_0000,
            0 <= psum <= (i as int) * 0x1_0000_0000_0000_0000,
        decreases n - i,
    {
        let o = observations[i];
        let ghost pre = observations@.take(i as int);
        let ghost next = observations@.take(i + 1);
        assert(next.drop_last() == pre);
        assert(next.last() == o);
        proof {
            assert(-((i + 1) as int) * 0x8000_0000_0000_0000 <= lsum + o.latency_ms <= ((i + 1) as int)
                * 0x8000_0000_0000_0000) by (nonlinear_arith)
                requires
                    -(i as int) * 0x8000_0000_0000_0000 <= lsum <= (i as int) * 0x8000_0000_0000_0000,
                    -0x8000_0000_0000_0000 <= o.latency_ms < 0x8000_0000_0000_0000,
            ;
            assert(((i + 1) as int) * 0x8000_0000_0000_0000 <= 0x8000_0000_0000_0000 * 0x1_0000_0000_0000_0000) by (nonlinear_arith)
                requires
                    i + 1 <= 0x1_0000_0000_0000_0000,
            ;
            assert(psum + o.payload_size_bytes <= ((i + 1) as int) * 0x1_0000_0000_0000_0000) by (nonlinear_arith)
                requires
                    0 <= psum <= (i as int) * 0x1_0000_0000_0000_0000,
                    o.payload_size_bytes < 0x1_0000_0000_0000_0000,
            ;
            assert(((i + 1) as int) * 0x1_0000_0000_0000_0000 <= 0x1_0000_0000_0000_0000 * 0x1_0000_0000_0000_0000) by (nonlinear_arith)
                requires
                    i + 1 <= 0x1_0000_0000_0000_0000,
            ;
        }
        lsum = lsum + o.latency_ms as i128;
        psum = psum + o.payload_size_bytes as u128;
        if i == 0 {
            lo = o.latency_ms;
            hi = o.latency_ms;
        } else {
            if o.latency_ms < lo {
                lo = o.latency_ms;
            }
            if o.latency_ms > hi {
                hi = o.latency_ms;
            }
        }
        i = i + 1;
    }
    assert(observations@.take(n as int) == observations@);
    BenchmarkTotals {
        total_events: n,
        latency_sum_ms: lsum,
        payload_sum_bytes: psum,
        min_latency_ms: lo,
        max_latency_ms: hi,
    }
}

/// Law: the smallest and largest latency of a run bound every latency in it, and both
/// are latencies of the run.
pub proof fn extremes_bound_every_latency(s: Seq<BenchmarkObservation>)
    requires
        s.len() > 0,
    ensures
        forall|i: int| 0 <= i < s.len() ==> min_latency(s) <= #[trigger] s[i].latency_ms <= max_latency(s),
        exists|i: int| 0 <= i < s.len() && #[trigger] s[i].latency_ms == min_latency(s),
        exists|i: int| 0 <= i < s.len() && #[trigger] s[i].latency_ms == max_latency(s),
    decreases s.len(),
{
    if s.len() > 1 {
        let p = s.drop_last();
        extremes_bound_every_latency(p);
        assert forall|i: int| 0 <= i < s.len() implies min_latency(s) <= #[trigger] s[i].latency_ms
            <= max_latency(s) by {
            if i < p.len() {
                assert(s[i] == p[i]);
            }
        }
        let a = choose|i: int| 0 <= i < p.len() && #[trigger] p[i].latency_ms == min_latency(p);
        let b = choose|i: int| 0 <= i < p.len() && #[trigger] p[i].latency_ms == max_latency(p);
        assert(s[a] == p[a]);
        assert(s[b] == p[b]);
        assert(s[s.len() - 1] == s.last());
    } else {
        assert(s[0].latency_ms == min_latency(s));
    }
}

/// `n` copies of the character `c`.
pub open spec fn repeat_char(c: char, n: nat) -> Seq<char> {
    Seq::new(n, |i: int| c)
}

/// The payload that the benchmark sends: `payload_size` (at least one) `X`s.
pub open spec fn benchmark_payload(payload_size: usize) -> Seq<char> {
    repeat_char('X', if payload_size > 1 { payload_size as nat } else { 1 })
}

/// The messages of a run: `total_events` of them, numbered from 1, each with a fresh
/// id, the same payload of `X`s and the time it was built.
pub fn build_events(total_events: usize, payload_size: usize) -> (res: Vec<BenchmarkEvent>)
    requires
        total_events < i64::MAX,
    ensures
        res@.len() == total_events,
        forall|i: int| 0 <= i < total_events ==> (#[trigger] res@[i]).sequence == i + 1,
        forall|i: int| 0 <= i < total_events ==> (#[trigger] res@[i]).payload@ == benchmark_payload(payload_size),
        forall|i: int| 0 <= i < total_events ==> (#[trigger] res@[i]).event_id@.len() == 36,
{
    let size: usize = if payload_size > 1 { payload_size } else { 1 };
    let mut payload = String::new();
    let mut k: usize = 0;
    while k < size
        invariant
            k <= size,
            payload@ == repeat_char('X', k as nat),
        decreases size - k,
    {
        payload.push('X');
        assert(payload@ =~= repeat_char('X', (k + 1) as nat));
        k = k + 1;
    }
    let mut out: Vec<BenchmarkEvent> = Vec::new();
    let mut index: usize = 0;
    while index < total_events
        invariant
            index <= total_events < i64::MAX,
            out@.len() == index,
            payload@ == benchmark_payload(payload_size),
            forall|i: int| 0 <= i < index ==> (#[trigger] out@[i]).sequence == i + 1,
            forall|i: int| 0 <= i < index ==> (#[trigger] out@[i]).payload@ == benchmark_payload(payload_size),
            forall|i: int| 0 <= i < index ==> (#[trigger] out@[i]).event_id@.len() == 36,
        decreases total_events - index,
    {
        let event = BenchmarkEvent::new(new_event_id(), index as i64 + 1, payload.clone());
        out.push(event);
        index = index + 1;
    }
    out
}

/// The message in the Protobuf schema's shape, field for field.
pub fn map_to_proto(event: &BenchmarkEvent) -> (res: ProtoBenchmarkEvent)
    ensures
        res.event_id == event.event_id,
        res.sequence == event.sequence,
        res.sent_at_ms == event.sent_at_ms,
        res.payload == event.payload,
{
    ProtoBenchmarkEvent {
        event_id: event.event_id.clone(),
        sequence: event.sequence,
        sent_at_ms: event.sent_at_ms,
        payload: event.payload.clone(),
    }
}

/// The report's lines for one format.
pub open spec fn section_lines(s: ReportSection) -> Seq<Seq<char>> {
    seq![
        "Format: "@ + s.label@,
        "  Total Events: "@ + decimal(s.total_events as int),
        "  Avg Latency: "@ + s.avg_latency_ms@ + " ms"@,
        "  Min Latency: "@ + decimal(s.min_latency_ms as int) + " ms"@,
        "  Max Latency: "@ + decimal(s.max_latency_ms as int) + " ms"@,
        "  Avg Payload Size: "@ + s.avg_payload_size_bytes@ + " bytes"@,
        Seq::<char>::empty(),
    ]
}

/// All the report's lines: the title, then each format's lines.
pub open spec fn report_lines(sections: Seq<ReportSection>) -> Seq<Seq<char>>
    decreases sections.len(),
{
    if sections.len() == 0 {
        seq!["================ Benchmark Report ================"@]
    } else {
        report_lines(sections.drop_last()) + section_lines(sections.last())
    }
}

/// Law: the report holds the title, then seven lines for every summary given, in
/// order: its format, event count, average, smallest and largest latency, average
/// payload size, and a blank line.
pub proof fn report_has_every_section(sections: Seq<ReportSection>)
    ensures
        report_lines(sections).len() == 1 + 7 * sections.len(),
        report_lines(sections)[0] == "================ Benchmark Report ================"@,
        forall|i: int, j: int|
            0 <= i < sections.len() && 0 <= j < 7 ==> report_lines(sections)[1 + 7 * i + j]
                == #[trigger] section_lines(sections[i])[j],
        forall|i: int|
            0 <= i < sections.len() ==> {
                let l = report_lines(sections);
                let x = #[trigger] sections[i];
                &&& l[1 + 7 * i] == "Format: "@ + x.label@
                &&& l[2 + 7 * i] == "  Total Events: "@ + decimal(x.total_events as int)
                &&& l[3 + 7 * i] == "  Avg Latency: "@ + x.avg_latency_ms@ + " ms"@
                &&& l[4 + 7 * i] == "  Min Latency: "@ + decimal(x.min_latency_ms as int) + " ms"@
                &&& l[5 + 7 * i] == "  Max Latency: "@ + decimal(x.max_latency_ms as int) + " ms"@
                &&& l[6 + 7 * i] == "  Avg Payload Size: "@ + x.avg_payload_size_bytes@
                    + " bytes"@
                &&& l[7 + 7 * i] == Seq::<char>::empty()
            },
    decreases sections.len(),
{
    if sections.len() > 0 {
        let prefix = sections.drop_last();
        report_has_every_section(prefix);
        let l = report_lines(sections);
        let p = report_lines(prefix);
        let last = sections.last();
        assert(l == p + section_lines(last));
        assert forall|i: int, j: int|
            0 <= i < sections.len() && 0 <= j < 7 implies l[1 + 7 * i + j]
                == #[trigger] section_lines(sections[i])[j] by {
            if i < sections.len() - 1 {
                assert(prefix[i] == sections[i]);
                assert(l[1 + 7 * i + j] == p[1 + 7 * i + j]);
            } else {
                assert(l[1 + 7 * i + j] == section_lines(last)[j]);
            }
        }
        assert forall|i: int| 0 <= i < sections.len() implies {
            let x = #[trigger] sections[i];
            &&& l[1 + 7 * i] == "Format: "@ + x.label@
            &&& l[2 + 7 * i] == "  Total Events: "@ + decimal(x.total_events as int)
            &&& l[3 + 7 * i] == "  Avg Latency: "@ + x.avg_latency_ms@ + " ms"@
            &&& l[4 + 7 * i] == "  Min Latency: "@ + decimal(x.min_latency_ms as int) + " ms"@
            &&& l[5 + 7 * i] == "  Max Latency: "@ + decimal(x.max_latency_ms as int) + " ms"@
            &&& l[6 + 7 * i] == "  Avg Payload Size: "@ + x.avg_payload_size_bytes@ + " bytes"@
            &&& l[7 + 7 * i] == Seq::<char>::empty()
        } by {
            let x = sections[i];
            let sl = section_lines(x);
            assert(l[1 + 7 * i] == sl[0]);
            assert(l[2 + 7 * i] == sl[1]);
            assert(l[3 + 7 * i] == sl[2]);
            assert(l[4 + 7 * i] == sl[3]);
            assert(l[5 + 7 * i] == sl[4]);
            assert(l[6 + 7 * i] == sl[5]);
            assert(l[7 + 7 * i] == sl[6]);
        }
    }
}

/// `lines` joined with line breaks (`[T]::join("\n")`).
pub open spec fn join_lines(lines: Seq<Seq<char>>) -> Seq<char>
    decreases lines.len(),
{
    if lines.len() == 0 {
        Seq::<char>::empty()
    } else if lines.len() == 1 {
        lines[0]
    } else {
        join_lines(lines.drop_last()) + seq!['\n'] + lines.last()
    }
}

proof fn lemma_join_push(lines: Seq<Seq<char>>, l: Seq<char>)
    requires
        lines.len() > 0,
    ensures
        join_lines(lines.push(l)) == join_lines(lines) + seq!['\n'] + l,
{
    assert(lines.push(l).drop_last() == lines);
}

/// Appends one line after a line break.
fn push_line(out: &mut String, line: &str, Ghost(lines): Ghost<Seq<Seq<char>>>)
    requires
        lines.len() > 0,
        old(out)@ == join_lines(lines),
    ensures
        final(out)@ == join_lines(lines.push(line@)),
{
    proof {
        lemma_join_push(lines, line@);
    }
    out.push('\n');
    out.append(line);
    assert(final(out)@ =~= join_lines(lines) + seq!['\n'] + line@);
}

/// The benchmark report: a title line, then seven lines per format (name, count,
/// average, smallest and largest latency, average size, and a blank line).
pub fn render_report(summaries: &Vec<ReportSection>) -> (res: String)
    ensures
        res@ == join_lines(report_lines(summaries@)),
{
    let mut out = owned("================ Benchmark Report ================");
    let mut i: usize = 0;
    proof {
        assert(summaries@.take(0) =~= Seq::<ReportSection>::empty());
    }
    while i < summaries.len()
        invariant
            i <= summaries.len(),
            report_lines(summaries@.take(i as int)).len() > 0,
            out@ == join_lines(report_lines(summaries@.take(i as int))),
        decreases summaries.len() - i,
    {
        let s = &summaries[i];
        let ghost before = report_lines(summaries@.take(i as int));
        assert(summaries@.take(i + 1).drop_last() == summaries@.take(i as int));
        assert(summaries@.take(i + 1).last() == *s);
        let l1 = concat2("Format: ", s.label.as_str());
        push_line(&mut out, l1.as_str(), Ghost(before));
        let ghost b1 = before.push(l1@);
        let n = format_usize(s.total_events);
        let l2 = concat2("  Total Events: ", n.as_str());
        push_line(&mut out, l2.as_str(), Ghost(b1));
        let ghost b2 = b1.push(l2@);
        let mut l3 = concat2("  Avg Latency: ", s.avg_latency_ms.as_str());
        l3.append(" ms");
        push_line(&mut out, l3.as_str(), Ghost(b2));
        let ghost b3 = b2.push(l3@);
        let lo = format_i64(s.min_latency_ms);
        let mut l4 = concat2("  Min Latency: ", lo.as_str());
        l4.append(" ms");
        push_line(&mut out, l4.as_str(), Ghost(b3));
        let ghost b4 = b3.push(l4@);
        let hi = format_i64(s.max_latency_ms);
        let mut l5 = concat2("  Max Latency: ", hi.as_str());
        l5.append(" ms");
        push_line(&mut out, l5.as_str(), Ghost(b4));
        let ghost b5 = b4.push(l5@);
        let mut l6 = concat2("  Avg Payload Size: ", s.avg_payload_size_bytes.as_str());
        l6.append(" bytes");
        push_line(&mut out, l6.as_str(), Ghost(b5));
        let ghost b6 = b5.push(l6@);
        let l7 = String::new();
        push_line(&mut out, l7.as_str(), Ghost(b6));
        assert(b6.push(l7@) =~= report_lines(summaries@.take(i + 1)));
        i = i + 1;
    }
    assert(summaries@.take(summaries.len() as int) == summaries@);
    out
}

} // verus!
