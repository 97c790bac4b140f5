use realmode_vm::dispatch::{
    dispatch, dispatch_run, Action, ExitEvent, PacingPolicy, Report,
};

#[test]
fn io_write_is_reported_and_paced() {
    let policy = PacingPolicy { delay_millis: 1000 };
    let event = ExitEvent::IoOut { port: 0x3F8, data: 0x42 };
    assert_eq!(
        dispatch(&policy, &event),
        Action::Report { port: 0x3F8, data: 0x42, pause_millis: 1000 }
    );
}

#[test]
fn pacing_pause_follows_the_policy() {
    let policy = PacingPolicy { delay_millis: 0 };
    let event = ExitEvent::IoOut { port: 3, data: 9 };
    assert_eq!(
        dispatch(&policy, &event),
        Action::Report { port: 3, data: 9, pause_millis: 0 }
    );
}

#[test]
fn every_other_exit_is_fatal() {
    let policy = PacingPolicy { delay_millis: 1000 };
    for reason in [
        ExitEvent::Halt,
        ExitEvent::Fault,
        ExitEvent::Unsupported,
        ExitEvent::ResumeFailure,
    ] {
        assert_eq!(dispatch(&policy, &reason), Action::Fatal { reason });
    }
}

// The image `mov al,0x42; out 0x3F8,al; hlt` yields one I/O-out
// exit and then a halt; the run reports the write and aborts on the halt.
#[test]
fn out_then_halt_reports_once_and_aborts() {
    let policy = PacingPolicy { delay_millis: 1000 };
    let events = vec![ExitEvent::IoOut { port: 0x3F8, data: 0x42 }, ExitEvent::Halt];
    let trace = dispatch_run(&policy, &events);
    assert_eq!(trace.reports, vec![Report { port: 0x3F8, data: 0x42 }]);
    assert_eq!(trace.stop, Some(ExitEvent::Halt));
    assert_eq!(
        dispatch(&policy, &ExitEvent::Halt),
        Action::Fatal { reason: ExitEvent::Halt }
    );
}

// Two consecutive `out` instructions to different ports are
// reported in the exact order issued, each with its own pacing pause.
#[test]
fn consecutive_writes_stay_in_order() {
    let policy = PacingPolicy { delay_millis: 250 };
    let first = ExitEvent::IoOut { port: 0x3F8, data: 0x41 };
    let second = ExitEvent::IoOut { port: 0x2F8, data: 0x42 };
    let trace = dispatch_run(&policy, &vec![first, second]);
    assert_eq!(
        trace.reports,
        vec![Report { port: 0x3F8, data: 0x41 }, Report { port: 0x2F8, data: 0x42 }]
    );
    assert_eq!(trace.stop, None);
    for event in [first, second] {
        match dispatch(&policy, &event) {
            Action::Report { pause_millis, .. } => assert_eq!(pause_millis, 250),
            other => panic!("expected a report, got {:?}", other),
        }
    }
}

#[test]
fn io_only_run_reports_every_write() {
    let policy = PacingPolicy { delay_millis: 1 };
    let events = vec![
        ExitEvent::IoOut { port: 1, data: 10 },
        ExitEvent::IoOut { port: 2, data: 20 },
        ExitEvent::IoOut { port: 3, data: 30 },
    ];
    let trace = dispatch_run(&policy, &events);
    assert_eq!(
        trace.reports,
        vec![
            Report { port: 1, data: 10 },
            Report { port: 2, data: 20 },
            Report { port: 3, data: 30 },
        ]
    );
    assert_eq!(trace.stop, None);
}

#[test]
fn run_stops_at_first_unhandled_exit() {
    let policy = PacingPolicy { delay_millis: 1 };
    let events = vec![
        ExitEvent::IoOut { port: 1, data: 10 },
        ExitEvent::Fault,
        ExitEvent::IoOut { port: 2, data: 20 },
    ];
    let trace = dispatch_run(&policy, &events);
    assert_eq!(trace.reports, vec![Report { port: 1, data: 10 }]);
    assert_eq!(trace.stop, Some(ExitEvent::Fault));
}

#[test]
fn empty_run_reports_nothing() {
    let policy = PacingPolicy { delay_millis: 1 };
    let trace = dispatch_run(&policy, &Vec::new());
    assert!(trace.reports.is_empty());
    assert_eq!(trace.stop, None);
}
