use sctrace::Regs;
use sctrace::ReportRequest;
use sctrace::SyscallBoundaryPhase;
use sctrace::TracedProcess;
use sctrace::render::render_report;
use sctrace::status::StopEvent;
use sctrace::status::classify_wait_status;

fn snapshot(orig_rax: u64, rdi: u64, rsi: u64, rdx: u64) -> Regs {
    let mut regs = Regs::zeroed();
    regs.orig_rax = orig_rax;
    regs.rdi = rdi;
    regs.rsi = rsi;
    regs.rdx = rdx;
    regs
}

const WRITE: u64 = 1;
const READ: u64 = 0;

#[test]
fn write_entry_is_reported() {
    let mut session = TracedProcess::new(42);
    assert_eq!(session.phase, SyscallBoundaryPhase::Entering);
    let request = session.observe_stop(&snapshot(WRITE, 1, 0x7000, 5));
    assert_eq!(
        request,
        Some(ReportRequest { fd: 1, buffer_address: 0x7000, length: 5 })
    );
    assert_eq!(session.phase, SyscallBoundaryPhase::Exiting);
    let line = render_report(1, &b"hello".to_vec());
    assert_eq!(line, "FD: 1: \"hello\"");
}

#[test]
fn empty_write_is_reported() {
    let mut session = TracedProcess::new(7);
    let request = session.observe_stop(&snapshot(WRITE, 2, 0x8000, 0));
    assert_eq!(
        request,
        Some(ReportRequest { fd: 2, buffer_address: 0x8000, length: 0 })
    );
    let line = render_report(2, &Vec::new());
    assert_eq!(line, "FD: 2: \"\"");
}

#[test]
fn entry_exit_reported_once() {
    let mut session = TracedProcess::new(1);
    let entry = session.observe_stop(&snapshot(WRITE, 1, 0x7000, 3));
    let exit = session.observe_stop(&snapshot(WRITE, 1, 0x7000, 3));
    assert!(entry.is_some());
    assert!(exit.is_none());
    assert_eq!(session.phase, SyscallBoundaryPhase::Entering);
}

#[test]
fn interleaved_read_produces_no_report() {
    let mut session = TracedProcess::new(1);
    let stops = [
        snapshot(WRITE, 1, 0x7000, 1),
        snapshot(WRITE, 1, 0x7000, 1),
        snapshot(READ, 0, 0x9000, 16),
        snapshot(READ, 0, 0x9000, 16),
        snapshot(WRITE, 1, 0x7100, 1),
        snapshot(WRITE, 1, 0x7100, 1),
    ];
    let contents: [&[u8]; 6] = [b"a", b"a", b"x", b"x", b"b", b"b"];
    let mut lines: Vec<String> = Vec::new();
    for (regs, content) in stops.iter().zip(contents.iter()) {
        if let Some(request) = session.observe_stop(regs) {
            assert_eq!(request.length as usize, content.len());
            lines.push(render_report(request.fd, &content.to_vec()));
        }
    }
    assert_eq!(lines, vec!["FD: 1: \"a\"".to_string(), "FD: 1: \"b\"".to_string()]);
}

#[test]
fn one_report_per_call_in_order() {
    let mut session = TracedProcess::new(1);
    let calls: [(u64, &[u8]); 3] = [(1, b"first"), (2, b"second"), (1, b"third")];
    let mut lines: Vec<String> = Vec::new();
    for (fd, content) in calls.iter() {
        let entry = session.observe_stop(&snapshot(WRITE, *fd, 0x7000, content.len() as u64));
        let exit = session.observe_stop(&snapshot(WRITE, *fd, 0x7000, content.len() as u64));
        assert!(exit.is_none());
        let request = entry.expect("entry stop must be reported");
        lines.push(render_report(request.fd, &content.to_vec()));
    }
    assert_eq!(
        lines,
        vec![
            "FD: 1: \"first\"".to_string(),
            "FD: 2: \"second\"".to_string(),
            "FD: 1: \"third\"".to_string(),
        ]
    );
}

#[test]
fn parity_survives_other_syscalls() {
    let plain = [
        snapshot(WRITE, 1, 0x7000, 1),
        snapshot(WRITE, 1, 0x7000, 1),
        snapshot(WRITE, 2, 0x7000, 1),
        snapshot(WRITE, 2, 0x7000, 1),
    ];
    let interleaved = [
        snapshot(READ, 0, 0x9000, 8),
        snapshot(WRITE, 1, 0x7000, 1),
        snapshot(READ, 0, 0x9000, 8),
        snapshot(WRITE, 1, 0x7000, 1),
        snapshot(3, 0, 0, 0),
        snapshot(WRITE, 2, 0x7000, 1),
        snapshot(3, 0, 0, 0),
        snapshot(WRITE, 2, 0x7000, 1),
    ];
    let mut plain_session = TracedProcess::new(1);
    let plain_requests: Vec<ReportRequest> = plain
        .iter()
        .filter_map(|regs| plain_session.observe_stop(regs))
        .collect();
    let mut mixed_session = TracedProcess::new(1);
    let mixed_requests: Vec<ReportRequest> = interleaved
        .iter()
        .filter_map(|regs| mixed_session.observe_stop(regs))
        .collect();
    assert_eq!(plain_requests, mixed_requests);
    assert_eq!(plain_session.phase, mixed_session.phase);
}

#[test]
fn exit_without_write_reports_nothing() {
    let mut session = TracedProcess::new(1);
    let mut reports: usize = 0;
    let statuses: [u32; 1] = [0];
    let mut clean_end = false;
    for status in statuses.iter() {
        match classify_wait_status(*status) {
            Ok(StopEvent::Exited) => {
                clean_end = true;
                break;
            }
            Ok(_) => {
                if session.observe_stop(&snapshot(WRITE, 1, 0, 0)).is_some() {
                    reports += 1;
                }
            }
            Err(_) => panic!("unexpected step error"),
        }
    }
    assert!(clean_end);
    assert_eq!(reports, 0);
}

#[test]
fn phase_toggle_round_trip() {
    let phase = SyscallBoundaryPhase::Entering;
    assert_eq!(phase.toggled(), SyscallBoundaryPhase::Exiting);
    assert_eq!(phase.toggled().toggled(), SyscallBoundaryPhase::Entering);
}
