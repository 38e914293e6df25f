use vstd::prelude::*;

use crate::regs::Regs;
use crate::regs::WRITE_SYSCALL_NUMBER;
use crate::session::SyscallBoundaryPhase;
use crate::session::phase_after;
use crate::session::report_request_of;

verus! {

/// One syscall-boundary stop as the tracer observes it: the syscall the
/// target is crossing, and — for an output-write — the descriptor and the
/// bytes its buffer holds, as remote reads would return them.
pub ghost struct ObservedStop {
    pub sysno: u64,
    pub fd: u64,
    pub bytes: Seq<u8>,
}

/// One report as the tracer emits it: the descriptor and the buffer
/// content of a completed output-write entry.
pub ghost struct ReportData {
    pub fd: u64,
    pub bytes: Seq<u8>,
}

/// One output-write call the target makes: its descriptor and the bytes
/// it writes.
pub ghost struct WriteCall {
    pub fd: u64,
    pub bytes: Seq<u8>,
}

/// Whether a stop carries the output-write syscall number.
pub open spec fn is_output_write_stop(s: ObservedStop) -> bool {
    s.sysno == WRITE_SYSCALL_NUMBER
}

/// The phase after one stop: toggled on an output-write stop, unchanged
/// otherwise.
pub open spec fn stop_phase_after(phase: SyscallBoundaryPhase, s: ObservedStop) -> SyscallBoundaryPhase {
    if is_output_write_stop(s) {
        phase.spec_toggled()
    } else {
        phase
    }
}

/// The report one stop produces: only an output-write stop seen in the
/// `Entering` phase produces one.
pub open spec fn stop_report(phase: SyscallBoundaryPhase, s: ObservedStop) -> Option<ReportData> {
    if is_output_write_stop(s) && phase is Entering {
        Some(ReportData { fd: s.fd, bytes: s.bytes })
    } else {
        None
    }
}

/// The phase after a whole sequence of stops, processed in order.
pub open spec fn phase_after_stops(phase: SyscallBoundaryPhase, stops: Seq<ObservedStop>) -> SyscallBoundaryPhase
    decreases stops.len(),
{
    if stops.len() == 0 {
        phase
    } else {
        phase_after_stops(stop_phase_after(phase, stops[0]), stops.drop_first())
    }
}

/// Every report a run of the control loop emits over a sequence of stops,
/// in emission order, starting from the given phase.
pub open spec fn reports_of_stops(phase: SyscallBoundaryPhase, stops: Seq<ObservedStop>) -> Seq<ReportData>
    decreases stops.len(),
{
    if stops.len() == 0 {
        Seq::empty()
    } else {
        (match stop_report(phase, stops[0]) {
            Some(r) => seq![r],
            None => Seq::empty(),
        }) + reports_of_stops(stop_phase_after(phase, stops[0]), stops.drop_first())
    }
}

/// The model stop that corresponds to a register snapshot, given the bytes
/// that remote reads of its buffer argument would return.
pub open spec fn stop_of_snapshot(regs: Regs, bytes: Seq<u8>) -> ObservedStop {
    ObservedStop { sysno: regs.orig_rax, fd: regs.rdi, bytes }
}

/// The per-stop decision on a register snapshot agrees with the model stop
/// carrying the snapshot's syscall number and write arguments: same next
/// phase, a report exactly when the session demands one, with the same
/// descriptor, and with the content as long as the requested length.
pub proof fn lemma_observe_matches_model(
    phase: SyscallBoundaryPhase,
    regs: Regs,
    bytes: Seq<u8>,
)
    requires
        bytes.len() == regs.rdx,
    ensures
        stop_phase_after(phase, stop_of_snapshot(regs, bytes)) == phase_after(phase, regs),
        stop_report(phase, stop_of_snapshot(regs, bytes)) is Some <==> report_request_of(
            phase,
            regs,
        ) is Some,
        report_request_of(phase, regs) matches Some(rr) ==> stop_report(
            phase,
            stop_of_snapshot(regs, bytes),
        ) == Some(ReportData { fd: rr.fd, bytes }) && rr.length == bytes.len(),
{
}

/// Stop sequences compose: processing a concatenation is processing the
/// first part, then the second from the phase the first part left behind.
pub proof fn lemma_reports_append(
    phase: SyscallBoundaryPhase,
    a: Seq<ObservedStop>,
    b: Seq<ObservedStop>,
)
    ensures
        phase_after_stops(phase, a + b) == phase_after_stops(phase_after_stops(phase, a), b),
        reports_of_stops(phase, a + b) == reports_of_stops(phase, a) + reports_of_stops(
            phase_after_stops(phase, a),
            b,
        ),
    decreases a.len(),
{
    if a.len() == 0 {
        assert(a + b =~= b);
        assert(reports_of_stops(phase, a) + reports_of_stops(phase, b) =~= reports_of_stops(
            phase,
            b,
        ));
    } else {
        assert((a + b)[0] == a[0]);
        assert((a + b).drop_first() =~= a.drop_first() + b);
        let phase1 = stop_phase_after(phase, a[0]);
        lemma_reports_append(phase1, a.drop_first(), b);
        assert(reports_of_stops(phase, a + b) =~= reports_of_stops(phase, a) + reports_of_stops(
            phase_after_stops(phase, a),
            b,
        ));
    }
}

/// LAW: entry/exit toggling is idempotent per syscall instance. Two
/// consecutive boundary stops both carrying the output-write syscall
/// number — one instance's entry and exit — processed from the `Entering`
/// phase produce exactly one report, for the first stop, and leave the
/// phase back at `Entering`.
pub proof fn lemma_entry_exit_toggle(s1: ObservedStop, s2: ObservedStop)
    requires
        is_output_write_stop(s1),
        is_output_write_stop(s2),
    ensures
        reports_of_stops(SyscallBoundaryPhase::Entering, seq![s1, s2]) =~= seq![
            ReportData { fd: s1.fd, bytes: s1.bytes },
        ],
        stop_report(SyscallBoundaryPhase::Entering, s1) is Some,
        stop_report(stop_phase_after(SyscallBoundaryPhase::Entering, s1), s2) is None,
        phase_after_stops(SyscallBoundaryPhase::Entering, seq![s1, s2])
            == SyscallBoundaryPhase::Entering,
{
    let entering = SyscallBoundaryPhase::Entering;
    let stops = seq![s1, s2];
    let p1 = stop_phase_after(entering, s1);
    assert(stops.drop_first() =~= seq![s2]);
    assert(seq![s2].drop_first() =~= Seq::<ObservedStop>::empty());
    assert(reports_of_stops(stop_phase_after(p1, s2), Seq::<ObservedStop>::empty())
        =~= Seq::<ReportData>::empty());
    assert(reports_of_stops(p1, seq![s2]) =~= Seq::<ReportData>::empty());
    assert(reports_of_stops(entering, stops) =~= seq![ReportData { fd: s1.fd, bytes: s1.bytes }]
        + reports_of_stops(p1, seq![s2]));
    assert(phase_after_stops(entering, stops) == phase_after_stops(p1, seq![s2]));
    assert(phase_after_stops(p1, seq![s2]) == phase_after_stops(
        stop_phase_after(p1, s2),
        Seq::<ObservedStop>::empty(),
    ));
}

/// The entry stop and the exit stop that one output-write call produces,
/// both carrying the call's descriptor and bytes.
pub open spec fn stops_of_call(c: WriteCall) -> Seq<ObservedStop> {
    seq![
        ObservedStop { sysno: WRITE_SYSCALL_NUMBER, fd: c.fd, bytes: c.bytes },
        ObservedStop { sysno: WRITE_SYSCALL_NUMBER, fd: c.fd, bytes: c.bytes },
    ]
}

/// The whole stop sequence a run of output-write calls produces, in call
/// order.
pub open spec fn stops_of_calls(cs: Seq<WriteCall>) -> Seq<ObservedStop>
    decreases cs.len(),
{
    if cs.len() == 0 {
        Seq::empty()
    } else {
        stops_of_call(cs[0]) + stops_of_calls(cs.drop_first())
    }
}

/// The report one output-write call is owed: its descriptor and its bytes.
pub open spec fn report_of_call(c: WriteCall) -> ReportData {
    ReportData { fd: c.fd, bytes: c.bytes }
}

/// LAW: one report per call, in call order. Over the stop sequence of any
/// run of output-write calls, the tracer emits exactly one report per
/// call, in the order of the calls, each carrying that call's descriptor
/// and byte content, and ends back in the `Entering` phase.
pub proof fn lemma_one_report_per_call(cs: Seq<WriteCall>)
    ensures
        reports_of_stops(SyscallBoundaryPhase::Entering, stops_of_calls(cs)) == cs.map_values(
            |c: WriteCall| report_of_call(c),
        ),
        phase_after_stops(SyscallBoundaryPhase::Entering, stops_of_calls(cs))
            == SyscallBoundaryPhase::Entering,
    decreases cs.len(),
{
    let entering = SyscallBoundaryPhase::Entering;
    if cs.len() == 0 {
        assert(reports_of_stops(entering, stops_of_calls(cs)) =~= cs.map_values(
            |c: WriteCall| report_of_call(c),
        ));
    } else {
        let first = stops_of_call(cs[0]);
        let rest = stops_of_calls(cs.drop_first());
        lemma_reports_append(entering, first, rest);
        lemma_entry_exit_toggle(first[0], first[1]);
        lemma_one_report_per_call(cs.drop_first());
        assert(reports_of_stops(entering, stops_of_calls(cs)) =~= cs.map_values(
            |c: WriteCall| report_of_call(c),
        ));
    }
}

/// The subsequence of a stop sequence that carries the output-write
/// syscall number, in order.
pub open spec fn output_write_stops_only(stops: Seq<ObservedStop>) -> Seq<ObservedStop>
    decreases stops.len(),
{
    if stops.len() == 0 {
        Seq::empty()
    } else if is_output_write_stop(stops[0]) {
        seq![stops[0]] + output_write_stops_only(stops.drop_first())
    } else {
        output_write_stops_only(stops.drop_first())
    }
}

/// LAW: interleaved stops of other syscalls never shift the entry/exit
/// parity of output-write stops. Removing every non-output-write stop
/// from an observed stop sequence leaves both the emitted reports and the
/// final phase unchanged.
pub proof fn lemma_other_syscalls_do_not_shift_parity(
    phase: SyscallBoundaryPhase,
    stops: Seq<ObservedStop>,
)
    ensures
        reports_of_stops(phase, output_write_stops_only(stops)) == reports_of_stops(phase, stops),
        phase_after_stops(phase, output_write_stops_only(stops)) == phase_after_stops(
            phase,
            stops,
        ),
    decreases stops.len(),
{
    if stops.len() == 0 {
    } else if is_output_write_stop(stops[0]) {
        let filtered = seq![stops[0]] + output_write_stops_only(stops.drop_first());
        assert(filtered[0] == stops[0]);
        assert(filtered.drop_first() =~= output_write_stops_only(stops.drop_first()));
        lemma_other_syscalls_do_not_shift_parity(
            stop_phase_after(phase, stops[0]),
            stops.drop_first(),
        );
    } else {
        lemma_other_syscalls_do_not_shift_parity(phase, stops.drop_first());
        assert(Seq::<ReportData>::empty() + reports_of_stops(phase, stops.drop_first())
            =~= reports_of_stops(phase, stops.drop_first()));
    }
}

} // verus!
