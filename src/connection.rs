//! The connection lifecycle: bounded reconnection attempts, and the screens
//! shown along the way. The caller performs the socket work and reports back.
use vstd::prelude::*;
use vstd::string::StringExecFns;
use epd_waveshare::color::Color;
use crate::panels::default_display_drawn;
use crate::session::PanelOp;
use crate::session::full_push;
use crate::session::partial_push;
use crate::session::push_partial;
use crate::session::shows_full;
use crate::surface::DisplayBoxed;
use crate::surface::Font;
use crate::surface::blank;
use crate::surface::grid_of;
use crate::surface::text_shown;
use crate::text::append_decimal;
use crate::text::decimal;
use crate::widgets::connected_drawn;
use crate::widgets::status_cleared;

verus! {

/// Failures after which the lifecycle stops for good: it stops once the
/// count exceeds this.
pub const MAX_RETRIES: u32 = 5;

/// Where the lifecycle stands.
#[derive(Debug, Clone, Copy, PartialEq, Eq)]
pub enum LinkState {
    /// No connection; the next attempt is due.
    Disconnected,
    /// A handshake is under way.
    Connecting,
    /// A session is running.
    Connected,
    /// Too many failures: no further attempt is made.
    Terminated,
}

/// What the caller reports.
#[derive(Debug, Clone, Copy, PartialEq, Eq)]
pub enum LinkEvent {
    /// The server switched protocols.
    HandshakeAccepted,
    /// The handshake got another answer, or the transport failed.
    HandshakeRejected,
    /// The running session ended by a close frame or a read error.
    SessionEnded,
}

/// What the caller must do next.
#[derive(Debug, Clone, Copy, PartialEq, Eq)]
pub enum LinkAction {
    /// Show the attempt screen and open the connection.
    Connect,
    /// Start a fresh session and show the connected banner.
    BeginSession,
    /// Show the retry screen with this failure count.
    ShowRetry(u32),
    /// Show the terminal message; the lifecycle is over.
    ShowTerminal,
    /// Nothing to do.
    Nothing,
}

/// The step taken when the caller asks for the next attempt.
pub open spec fn next_spec(state: LinkState, retries: nat) -> (LinkState, nat, LinkAction) {
    match state {
        LinkState::Disconnected => if retries > MAX_RETRIES {
            (LinkState::Terminated, retries, LinkAction::ShowTerminal)
        } else {
            (LinkState::Connecting, retries, LinkAction::Connect)
        },
        _ => (state, retries, LinkAction::Nothing),
    }
}

/// The step taken on event `e`.
pub open spec fn event_spec(state: LinkState, retries: nat, e: LinkEvent) -> (LinkState, nat, LinkAction) {
    match (state, e) {
        (LinkState::Connecting, LinkEvent::HandshakeAccepted) => (
            LinkState::Connected,
            retries,
            LinkAction::BeginSession,
        ),
        (LinkState::Connecting, LinkEvent::HandshakeRejected) => (
            LinkState::Disconnected,
            retries + 1,
            LinkAction::Nothing,
        ),
        (LinkState::Connected, LinkEvent::SessionEnded) => (
            LinkState::Disconnected,
            retries + 1,
            LinkAction::ShowRetry((retries + 1) as u32),
        ),
        _ => (state, retries, LinkAction::Nothing),
    }
}

/// The retry state machine of the connection.
#[derive(Debug, Clone, Copy)]
pub struct ConnectionLifecycle {
    state: LinkState,
    retries: u32,
}

impl ConnectionLifecycle {
    /// The current state.
    pub closed spec fn state_spec(&self) -> LinkState {
        self.state
    }

    /// The failures counted so far.
    pub closed spec fn retries_spec(&self) -> nat {
        self.retries as nat
    }

    /// The count stays within the ceiling while a connection is attempted
    /// or running, and one past it at most.
    pub open spec fn wf(&self) -> bool {
        &&& self.retries_spec() <= MAX_RETRIES + 1
        &&& (self.state_spec() == LinkState::Connecting || self.state_spec() == LinkState::Connected)
            ==> self.retries_spec() <= MAX_RETRIES
    }

    /// A lifecycle before its first attempt.
    pub fn new() -> (r: Self)
        ensures
            r.wf(),
            r.state_spec() == LinkState::Disconnected,
            r.retries_spec() == 0,
    {
        ConnectionLifecycle { state: LinkState::Disconnected, retries: 0 }
    }

    /// The current state.
    pub fn state(&self) -> (r: LinkState)
        ensures
            r == self.state_spec(),
    {
        self.state
    }

    /// The failures counted so far.
    pub fn retries(&self) -> (r: u32)
        ensures
            r == self.retries_spec(),
    {
        self.retries
    }

    /// Asks for the next attempt: a connection while the count is within the
    /// ceiling, else the terminal message.
    pub fn next_attempt(&mut self) -> (r: LinkAction)
        requires
            old(self).wf(),
        ensures
            final(self).wf(),
            (final(self).state_spec(), final(self).retries_spec(), r) == next_spec(
                old(self).state_spec(),
                old(self).retries_spec(),
            ),
    {
        match self.state {
            LinkState::Disconnected => {
                if self.retries > MAX_RETRIES {
                    self.state = LinkState::Terminated;
                    LinkAction::ShowTerminal
                } else {
                    self.state = LinkState::Connecting;
                    LinkAction::Connect
                }
            },
            _ => LinkAction::Nothing,
        }
    }

    /// Takes in what the caller observed.
    pub fn on_event(&mut self, e: LinkEvent) -> (r: LinkAction)
        requires
            old(self).wf(),
        ensures
            final(self).wf(),
            (final(self).state_spec(), final(self).retries_spec(), r) == event_spec(
                old(self).state_spec(),
                old(self).retries_spec(),
                e,
            ),
    {
        match (self.state, e) {
            (LinkState::Connecting, LinkEvent::HandshakeAccepted) => {
                self.state = LinkState::Connected;
                LinkAction::BeginSession
            },
            (LinkState::Connecting, LinkEvent::HandshakeRejected) => {
                self.state = LinkState::Disconnected;
                self.retries = self.retries + 1;
                LinkAction::Nothing
            },
            (LinkState::Connected, LinkEvent::SessionEnded) => {
                self.state = LinkState::Disconnected;
                self.retries = self.retries + 1;
                LinkAction::ShowRetry(self.retries)
            },
            _ => LinkAction::Nothing,
        }
    }
}

/// The message of the retry screen.
pub open spec fn retry_message(n: nat) -> Seq<char> {
    "Disconnected from Websocket! Retry: "@ + decimal(n)
}

/// The screen before each attempt: the status area wiped and pushed, then the
/// static layout drawn and shown with a full refresh.
pub fn attempt_screen(display: &mut DisplayBoxed) -> (r: Vec<PanelOp>)
    requires
        old(display).wf(),
    ensures
        final(display).wf(),
        final(display)@ == default_display_drawn(status_cleared(old(display)@)),
        r@.len() == 5,
        exists|p: Seq<u8>| grid_of(p) == status_cleared(old(display)@) && partial_push(r@.take(3), p),
        full_push(r@.skip(3), final(display).packed()),
{
    display.clear_status_message();
    let ghost p = display.packed();
    let mut ops: Vec<PanelOp> = Vec::new();
    push_partial(&mut ops, display.buffer());
    let ghost first = ops@;
    assert(first.skip(0) =~= first);
    display.draw_default_display();
    let frame = display.buffer();
    ops.push(PanelOp::ShowFull { frame: frame.clone() });
    ops.push(PanelOp::SetBaseline { frame });
    assert(ops@.take(3) =~= first);
    assert(ops@.skip(3) =~= seq![ops@[3], ops@[4]]);
    assert(grid_of(p) == status_cleared(old(display)@) && partial_push(ops@.take(3), p));
    ops
}

/// The screen once connected: the banner drawn and pushed.
pub fn connected_screen(display: &mut DisplayBoxed) -> (r: Vec<PanelOp>)
    requires
        old(display).wf(),
    ensures
        final(display).wf(),
        final(display)@ == connected_drawn(old(display)@),
        partial_push(r@, final(display).packed()),
{
    display.set_connected();
    let mut ops: Vec<PanelOp> = Vec::new();
    push_partial(&mut ops, display.buffer());
    assert(ops@.skip(0) =~= ops@);
    ops
}

/// The retry screen: the whole panel wiped, then the failure count.
pub fn retry_screen(display: &mut DisplayBoxed, n: u32) -> (r: Vec<PanelOp>)
    requires
        old(display).wf(),
    ensures
        final(display).wf(),
        final(display)@ == text_shown(blank(false), retry_message(n as nat), 45, 40, Font::Regular6x10),
        r@.len() == 1,
        shows_full(r@[0], final(display).packed()),
{
    let mut msg = String::from_str("Disconnected from Websocket! Retry: ");
    append_decimal(&mut msg, n);
    display.clear(Color::White);
    display.text(msg.as_str(), 45, 40, Font::Regular6x10);
    let mut ops: Vec<PanelOp> = Vec::new();
    ops.push(PanelOp::ShowFull { frame: display.buffer() });
    ops
}

/// The terminal screen: the whole panel wiped, then the two-line message.
pub fn terminal_screen(display: &mut DisplayBoxed) -> (r: Vec<PanelOp>)
    requires
        old(display).wf(),
    ensures
        final(display).wf(),
        final(display)@ == text_shown(
            text_shown(blank(false), "Disconnected from Websocket!"@, 60, 40, Font::Regular6x10),
            "Manual restart necessary"@,
            60,
            50,
            Font::Regular6x10,
        ),
        r@.len() == 1,
        shows_full(r@[0], final(display).packed()),
{
    display.clear(Color::White);
    display.text("Disconnected from Websocket!", 60, 40, Font::Regular6x10);
    display.text("Manual restart necessary", 60, 50, Font::Regular6x10);
    let mut ops: Vec<PanelOp> = Vec::new();
    ops.push(PanelOp::ShowFull { frame: display.buffer() });
    ops
}

} // verus!
