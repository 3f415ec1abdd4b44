use senec_display::connection::attempt_screen;
use senec_display::connection::connected_screen;
use senec_display::connection::retry_screen;
use senec_display::connection::terminal_screen;
use senec_display::connection::ConnectionLifecycle;
use senec_display::connection::LinkAction;
use senec_display::connection::LinkEvent;
use senec_display::connection::LinkState;
use senec_display::session::PanelOp;
use senec_display::surface::DisplayBoxed;

#[test]
fn six_failures_end_in_the_terminal_message() {
    let mut l = ConnectionLifecycle::new();
    let mut attempts = 0;
    for round in 0..6u32 {
        assert_eq!(l.next_attempt(), LinkAction::Connect);
        attempts += 1;
        if round % 2 == 0 {
            assert_eq!(l.on_event(LinkEvent::HandshakeRejected), LinkAction::Nothing);
        } else {
            assert_eq!(l.on_event(LinkEvent::HandshakeAccepted), LinkAction::BeginSession);
            assert_eq!(l.on_event(LinkEvent::SessionEnded), LinkAction::ShowRetry(round + 1));
        }
    }
    assert_eq!(l.retries(), 6);
    assert_eq!(l.next_attempt(), LinkAction::ShowTerminal);
    assert_eq!(l.state(), LinkState::Terminated);
    for _ in 0..3 {
        assert_eq!(l.next_attempt(), LinkAction::Nothing);
        assert_eq!(l.on_event(LinkEvent::HandshakeAccepted), LinkAction::Nothing);
    }
    assert_eq!(attempts, 6);
}

#[test]
fn five_failures_still_retry() {
    let mut l = ConnectionLifecycle::new();
    for _ in 0..5 {
        assert_eq!(l.next_attempt(), LinkAction::Connect);
        l.on_event(LinkEvent::HandshakeRejected);
    }
    assert_eq!(l.next_attempt(), LinkAction::Connect);
    assert_eq!(l.state(), LinkState::Connecting);
}

#[test]
fn events_out_of_turn_are_ignored() {
    let mut l = ConnectionLifecycle::new();
    assert_eq!(l.on_event(LinkEvent::SessionEnded), LinkAction::Nothing);
    assert_eq!(l.retries(), 0);
    assert_eq!(l.state(), LinkState::Disconnected);
}

#[test]
fn screens_push_what_they_drew() {
    let mut d = DisplayBoxed::new();
    let ops = attempt_screen(&mut d);
    assert_eq!(ops.len(), 5);
    assert_eq!(ops[3], PanelOp::ShowFull { frame: d.buffer() });
    let ops = connected_screen(&mut d);
    assert_eq!(ops[2], PanelOp::SetBaseline { frame: d.buffer() });
    let ops = retry_screen(&mut d, 3);
    assert_eq!(ops, vec![PanelOp::ShowFull { frame: d.buffer() }]);
    let mut e = DisplayBoxed::new();
    retry_screen(&mut e, 4);
    assert_ne!(e.raw_buffer(), d.raw_buffer());
    let ops = terminal_screen(&mut d);
    assert_eq!(ops, vec![PanelOp::ShowFull { frame: d.buffer() }]);
}
