//! The decisions of the transport worker. The worker owns the socket and
//! does what is decided here: it connects, sends, reads and sleeps, and
//! reports back what came of it.

use vstd::prelude::*;
use vstd::string::StringExecFns;
use super::{CommandView, EventView, WsCommand, WsEvent};

verus! {

/// The serialization of the URL that the `url` crate reads from a text,
/// `None` where it reads none.
pub uninterp spec fn url_serialization(text: Seq<char>) -> Option<Seq<char>>;

/// `Url::parse` of the `url` crate, and the serialization of the URL it
/// gives. The contract claims only that the outcome is a function of the
/// text.
#[verifier::external_body]
fn parse_url(text: &str) -> (url: Option<String>)
    ensures
        match url {
            Some(u) => url_serialization(text@) == Some(u@),
            None => url_serialization(text@) is None,
        },
{
    match url::Url::parse(text) {
        Ok(u) => Some(String::from(u)),
        Err(_) => None,
    }
}

/// The scheme of an encrypted connection, with what parts it from the
/// address.
pub open spec fn spec_encrypted_prefix() -> Seq<char> {
    "wss://"@
}

/// The scheme of an unencrypted connection, with what parts it from the
/// address.
pub open spec fn spec_plain_prefix() -> Seq<char> {
    "ws://"@
}

/// The list that holds `url`, if there is one.
pub open spec fn spec_some_or_nothing(url: Option<Seq<char>>) -> Seq<Seq<char>> {
    match url {
        Some(u) => seq![u],
        None => seq![],
    }
}

/// The endpoints to try for an address, in the order in which to try them:
/// the encrypted one, then the unencrypted one, each only if it is a URL.
pub open spec fn spec_candidates(address: Seq<char>) -> Seq<Seq<char>> {
    spec_some_or_nothing(url_serialization(spec_encrypted_prefix() + address))
        + spec_some_or_nothing(url_serialization(spec_plain_prefix() + address))
}

/// The endpoints to try for an address, in the order in which to try them.
pub fn normalize_urls(input: &str) -> (out: Vec<String>)
    ensures
        out.deep_view() == spec_candidates(input@),
{
    let wss = "wss://".to_string().concat(input);
    let ws = "ws://".to_string().concat(input);
    let mut out: Vec<String> = Vec::new();
    match parse_url(wss.as_str()) {
        Some(u) => {
            out.push(u);
        },
        None => {},
    }
    match parse_url(ws.as_str()) {
        Some(u) => {
            out.push(u);
        },
        None => {},
    }
    out
}

/// Where the worker stands.
#[derive(Debug, Clone, Copy, PartialEq, Eq, Structural)]
pub enum WorkerPhase {
    /// No socket.
    Idle,
    /// An attempt to connect is under way.
    Connecting,
    /// The socket is open.
    Connected,
    /// The worker has ended and does nothing any more.
    Stopped,
}

/// What the worker knows between two steps.
#[derive(Debug)]
pub struct WsWorker {
    pub phase: WorkerPhase,
    /// The endpoint that is being tried or that the socket is open to.
    pub current: Option<String>,
    /// The endpoints still to try should the attempt under way fail.
    pub pending: Vec<String>,
}

/// The mathematical value of a [`WsWorker`].
pub struct WorkerView {
    pub phase: WorkerPhase,
    pub current: Option<Seq<char>>,
    pub pending: Seq<Seq<char>>,
}

impl View for WsWorker {
    type V = WorkerView;

    open spec fn view(&self) -> WorkerView {
        WorkerView {
            phase: self.phase,
            current: self.current.deep_view(),
            pending: self.pending.deep_view(),
        }
    }
}

/// A frame that was read from the socket.
#[derive(Debug)]
pub enum WsFrame {
    /// A text frame that holds well-formed text.
    Text(String),
    /// A text frame that holds none, with what is wrong with it.
    InvalidText(String),
    Close,
    /// A frame of any other kind, such as a ping.
    Other,
}

/// What happened to the worker.
#[derive(Debug)]
pub enum WorkerInput {
    /// The application sent a command.
    Command(WsCommand),
    /// The attempt to connect succeeded.
    AttemptSucceeded,
    /// The attempt to connect failed, for this reason.
    AttemptFailed(String),
    /// A frame could not be sent, for this reason.
    SendFailed(String),
    /// A frame arrived.
    Frame(WsFrame),
    /// The stream of frames ended.
    StreamEnded,
    /// No frame arrived in the time allowed. This is no error.
    ReadTimeout,
}

/// What the worker is to do.
#[derive(Debug)]
pub enum WorkerAction {
    /// Drop the socket, if there is one.
    DropSocket,
    /// Try to connect to the endpoint and report how it went.
    Attempt { url: String },
    /// Send a text frame and report if that fails.
    Send { text: String },
    /// Send a close frame. A failure is of no concern.
    SendClose,
    /// Raise the event.
    Emit(WsEvent),
    /// End the worker.
    Terminate,
}

/// The mathematical value of a [`WorkerAction`].
pub enum ActionView {
    DropSocket,
    Attempt { url: Seq<char> },
    Send { text: Seq<char> },
    SendClose,
    Emit(EventView),
    Terminate,
}

impl View for WorkerAction {
    type V = ActionView;

    open spec fn view(&self) -> ActionView {
        match self {
            WorkerAction::DropSocket => ActionView::DropSocket,
            WorkerAction::Attempt { url } => ActionView::Attempt { url: url@ },
            WorkerAction::Send { text } => ActionView::Send { text: text@ },
            WorkerAction::SendClose => ActionView::SendClose,
            WorkerAction::Emit(event) => ActionView::Emit(event@),
            WorkerAction::Terminate => ActionView::Terminate,
        }
    }
}

/// The views of a list of actions.
pub open spec fn spec_action_views(actions: Seq<WorkerAction>) -> Seq<ActionView> {
    Seq::new(actions.len(), |i: int| actions[i]@)
}

/// What the worker does while nothing happens.
#[derive(Debug, Clone, Copy, PartialEq, Eq, Structural)]
pub enum WorkerWait {
    /// Wait for a frame, for so many milliseconds at most.
    Read { timeout_ms: u64 },
    /// Sleep for so many milliseconds.
    Sleep { ms: u64 },
    /// Nothing: the worker has ended.
    Done,
}

/// The milliseconds that the worker waits for a frame, or sleeps, before
/// it looks for commands again.
pub const WORKER_TICK_MS: u64 = 10;

impl WorkerView {
    pub open spec fn idle() -> WorkerView {
        WorkerView { phase: WorkerPhase::Idle, current: None, pending: seq![] }
    }

    pub open spec fn stopped() -> WorkerView {
        WorkerView { phase: WorkerPhase::Stopped, current: None, pending: seq![] }
    }

    /// The worker after the socket was lost, and the event that says why.
    pub open spec fn lost(reason: Seq<char>) -> (WorkerView, Seq<ActionView>) {
        (
            WorkerView::idle(),
            seq![
                ActionView::Emit(EventView::Disconnected { reason }),
                ActionView::DropSocket,
            ],
        )
    }

    /// The step for the command to connect: whatever socket there is goes,
    /// and the first endpoint is tried. An address that gives no endpoint
    /// ends in an error at once.
    pub open spec fn on_connect(self, address: Seq<char>) -> (WorkerView, Seq<ActionView>) {
        let candidates = spec_candidates(address);
        if candidates.len() == 0 {
            (
                WorkerView::idle(),
                seq![
                    ActionView::DropSocket,
                    ActionView::Emit(
                        EventView::ConnectionError {
                            error: "could not parse address into ws/wss URL: "@ + address,
                        },
                    ),
                ],
            )
        } else {
            (
                WorkerView {
                    phase: WorkerPhase::Connecting,
                    current: Some(candidates[0]),
                    pending: candidates.skip(1),
                },
                seq![ActionView::DropSocket, ActionView::Attempt { url: candidates[0] }],
            )
        }
    }

    /// The step for a command.
    pub open spec fn on_command(self, command: CommandView) -> (WorkerView, Seq<ActionView>) {
        match command {
            CommandView::Connect { address } => self.on_connect(address),
            CommandView::SendText(text) => if self.phase == WorkerPhase::Connected {
                (self, seq![ActionView::Send { text }])
            } else {
                (self, seq![])
            },
            CommandView::Shutdown => if self.phase == WorkerPhase::Connected {
                (WorkerView::stopped(), seq![ActionView::SendClose, ActionView::Terminate])
            } else {
                (WorkerView::stopped(), seq![ActionView::Terminate])
            },
        }
    }

    /// The step for a failed attempt: the next endpoint is tried, and where
    /// none is left the failure is reported with its reason.
    pub open spec fn on_attempt_failed(self, reason: Seq<char>) -> (WorkerView, Seq<ActionView>) {
        if self.phase != WorkerPhase::Connecting {
            (self, seq![])
        } else if self.pending.len() > 0 {
            (
                WorkerView {
                    phase: WorkerPhase::Connecting,
                    current: Some(self.pending[0]),
                    pending: self.pending.skip(1),
                },
                seq![ActionView::Attempt { url: self.pending[0] }],
            )
        } else {
            (
                WorkerView::idle(),
                seq![
                    ActionView::Emit(
                        EventView::ConnectionError {
                            error: "failed to connect (after fallback attempts): "@ + reason,
                        },
                    ),
                ],
            )
        }
    }

    /// The step for an attempt that succeeded: the socket is open, and no
    /// other endpoint is tried.
    pub open spec fn on_attempt_succeeded(self) -> (WorkerView, Seq<ActionView>) {
        match self.current {
            Some(url) => if self.phase == WorkerPhase::Connecting {
                (
                    WorkerView {
                        phase: WorkerPhase::Connected,
                        current: Some(url),
                        pending: seq![],
                    },
                    seq![ActionView::Emit(EventView::Connected { url })],
                )
            } else {
                (self, seq![])
            },
            None => (self, seq![]),
        }
    }

    /// The step for a frame that arrived.
    pub open spec fn on_frame(self, frame: WsFrame) -> (WorkerView, Seq<ActionView>) {
        if self.phase != WorkerPhase::Connected {
            (self, seq![])
        } else {
            match frame {
                WsFrame::Text(text) => (
                    self,
                    seq![ActionView::Emit(EventView::TextMessage(text@))],
                ),
                WsFrame::InvalidText(reason) => WorkerView::lost(
                    "invalid utf8 from server: "@ + reason@,
                ),
                WsFrame::Close => WorkerView::lost("server closed connection"@),
                WsFrame::Other => (self, seq![]),
            }
        }
    }

    /// The worker after `input`, and what it is to do. A worker that has
    /// ended stays as it is and does nothing.
    pub open spec fn step(self, input: WorkerInput) -> (WorkerView, Seq<ActionView>) {
        if self.phase == WorkerPhase::Stopped {
            (self, seq![])
        } else {
            match input {
                WorkerInput::Command(command) => self.on_command(command@),
                WorkerInput::AttemptSucceeded => self.on_attempt_succeeded(),
                WorkerInput::AttemptFailed(reason) => self.on_attempt_failed(reason@),
                WorkerInput::SendFailed(reason) => if self.phase == WorkerPhase::Connected {
                    WorkerView::lost("send error: "@ + reason@)
                } else {
                    (self, seq![])
                },
                WorkerInput::Frame(frame) => self.on_frame(frame),
                WorkerInput::StreamEnded => if self.phase == WorkerPhase::Connected {
                    WorkerView::lost("connection ended"@)
                } else {
                    (self, seq![])
                },
                WorkerInput::ReadTimeout => (self, seq![]),
            }
        }
    }

    /// What the worker does while nothing happens: with a socket it waits
    /// a short time for a frame, without one it sleeps as long.
    pub open spec fn wait(self) -> WorkerWait {
        match self.phase {
            WorkerPhase::Connected => WorkerWait::Read { timeout_ms: WORKER_TICK_MS },
            WorkerPhase::Stopped => WorkerWait::Done,
            _ => WorkerWait::Sleep { ms: WORKER_TICK_MS },
        }
    }
}

impl WsWorker {
    /// A worker without a socket.
    pub fn new() -> (worker: WsWorker)
        ensures
            worker@ == WorkerView::idle(),
    {
        let pending: Vec<String> = Vec::new();
        assert(pending.deep_view() =~= Seq::<Seq<char>>::empty());
        WsWorker { phase: WorkerPhase::Idle, current: None, pending }
    }

    fn reset(&mut self, phase: WorkerPhase)
        ensures
            final(self)@ == (WorkerView { phase, current: None, pending: seq![] }),
    {
        let pending: Vec<String> = Vec::new();
        assert(pending.deep_view() =~= Seq::<Seq<char>>::empty());
        self.phase = phase;
        self.current = None;
        self.pending = pending;
    }

    fn lose(&mut self, reason: String) -> (actions: Vec<WorkerAction>)
        ensures
            (final(self)@, spec_action_views(actions@)) == WorkerView::lost(reason@),
    {
        self.reset(WorkerPhase::Idle);
        let mut actions: Vec<WorkerAction> = Vec::new();
        actions.push(WorkerAction::Emit(WsEvent::Disconnected { reason }));
        actions.push(WorkerAction::DropSocket);
        actions
    }

    fn connect(&mut self, address: &str) -> (actions: Vec<WorkerAction>)
        ensures
            (final(self)@, spec_action_views(actions@)) == old(self)@.on_connect(address@),
    {
        let mut candidates = normalize_urls(address);
        let mut actions: Vec<WorkerAction> = Vec::new();
        actions.push(WorkerAction::DropSocket);
        if candidates.len() == 0 {
            self.reset(WorkerPhase::Idle);
            let error = "could not parse address into ws/wss URL: ".to_string().concat(address);
            actions.push(WorkerAction::Emit(WsEvent::ConnectionError { error }));
        } else {
            let ghost all = candidates.deep_view();
            let first = candidates.remove(0);
            assert(candidates.deep_view() =~= all.skip(1));
            actions.push(WorkerAction::Attempt { url: first.clone() });
            self.phase = WorkerPhase::Connecting;
            self.current = Some(first);
            self.pending = candidates;
        }
        actions
    }

    fn command(&mut self, command: WsCommand) -> (actions: Vec<WorkerAction>)
        ensures
            (final(self)@, spec_action_views(actions@)) == old(self)@.on_command(command@),
    {
        match command {
            WsCommand::Connect { address } => self.connect(address.as_str()),
            WsCommand::SendText(text) => {
                let mut actions: Vec<WorkerAction> = Vec::new();
                match self.phase {
                    WorkerPhase::Connected => {
                        actions.push(WorkerAction::Send { text });
                    },
                    _ => {},
                }
                actions
            },
            WsCommand::Shutdown => {
                let mut actions: Vec<WorkerAction> = Vec::new();
                match self.phase {
                    WorkerPhase::Connected => {
                        actions.push(WorkerAction::SendClose);
                    },
                    _ => {},
                }
                actions.push(WorkerAction::Terminate);
                self.reset(WorkerPhase::Stopped);
                actions
            },
        }
    }

    fn attempt_failed(&mut self, reason: String) -> (actions: Vec<WorkerAction>)
        ensures
            (final(self)@, spec_action_views(actions@)) == old(self)@.on_attempt_failed(reason@),
    {
        let mut actions: Vec<WorkerAction> = Vec::new();
        match self.phase {
            WorkerPhase::Connecting => {},
            _ => {
                return actions;
            },
        }
        if self.pending.len() > 0 {
            let ghost all = self.pending.deep_view();
            let next = self.pending.remove(0);
            assert(self.pending.deep_view() =~= all.skip(1));
            actions.push(WorkerAction::Attempt { url: next.clone() });
            self.current = Some(next);
        } else {
            self.reset(WorkerPhase::Idle);
            let error = "failed to connect (after fallback attempts): ".to_string().concat(
                reason.as_str(),
            );
            actions.push(WorkerAction::Emit(WsEvent::ConnectionError { error }));
        }
        actions
    }

    fn attempt_succeeded(&mut self) -> (actions: Vec<WorkerAction>)
        ensures
            (final(self)@, spec_action_views(actions@)) == old(self)@.on_attempt_succeeded(),
    {
        let mut actions: Vec<WorkerAction> = Vec::new();
        let connecting = match self.phase {
            WorkerPhase::Connecting => true,
            _ => false,
        };
        match &self.current {
            Some(url) => {
                if connecting {
                    actions.push(WorkerAction::Emit(WsEvent::Connected { url: url.clone() }));
                    let pending: Vec<String> = Vec::new();
                    assert(pending.deep_view() =~= Seq::<Seq<char>>::empty());
                    self.phase = WorkerPhase::Connected;
                    self.pending = pending;
                }
            },
            None => {},
        }
        actions
    }

    fn frame(&mut self, frame: WsFrame) -> (actions: Vec<WorkerAction>)
        ensures
            (final(self)@, spec_action_views(actions@)) == old(self)@.on_frame(frame),
    {
        match self.phase {
            WorkerPhase::Connected => {},
            _ => {
                let actions: Vec<WorkerAction> = Vec::new();
                return actions;
            },
        }
        match frame {
            WsFrame::Text(text) => {
                let mut actions: Vec<WorkerAction> = Vec::new();
                actions.push(WorkerAction::Emit(WsEvent::TextMessage(text)));
                actions
            },
            WsFrame::InvalidText(reason) => self.lose(
                "invalid utf8 from server: ".to_string().concat(reason.as_str()),
            ),
            WsFrame::Close => self.lose("server closed connection".to_string()),
            WsFrame::Other => {
                let actions: Vec<WorkerAction> = Vec::new();
                actions
            },
        }
    }

    /// Takes what happened and says what the worker is to do, in order.
    pub fn step(&mut self, input: WorkerInput) -> (actions: Vec<WorkerAction>)
        ensures
            (final(self)@, spec_action_views(actions@)) == old(self)@.step(input),
    {
        let connected = match self.phase {
            WorkerPhase::Stopped => {
                let actions: Vec<WorkerAction> = Vec::new();
                return actions;
            },
            WorkerPhase::Connected => true,
            _ => false,
        };
        match input {
            WorkerInput::Command(command) => self.command(command),
            WorkerInput::AttemptSucceeded => self.attempt_succeeded(),
            WorkerInput::AttemptFailed(reason) => self.attempt_failed(reason),
            WorkerInput::SendFailed(reason) => {
                if connected {
                    self.lose("send error: ".to_string().concat(reason.as_str()))
                } else {
                    let actions: Vec<WorkerAction> = Vec::new();
                    actions
                }
            },
            WorkerInput::Frame(frame) => self.frame(frame),
            WorkerInput::StreamEnded => {
                if connected {
                    self.lose("connection ended".to_string())
                } else {
                    let actions: Vec<WorkerAction> = Vec::new();
                    actions
                }
            },
            WorkerInput::ReadTimeout => {
                let actions: Vec<WorkerAction> = Vec::new();
                actions
            },
        }
    }

    /// What the worker does while nothing happens.
    pub fn wait(&self) -> (wait: WorkerWait)
        ensures
            wait == self@.wait(),
    {
        match self.phase {
            WorkerPhase::Connected => WorkerWait::Read { timeout_ms: WORKER_TICK_MS },
            WorkerPhase::Stopped => WorkerWait::Done,
            _ => WorkerWait::Sleep { ms: WORKER_TICK_MS },
        }
    }
}

/// Whether `actions` holds an attempt to connect.
pub open spec fn spec_attempts(actions: Seq<ActionView>) -> bool {
    exists|i: int| 0 <= i < actions.len() && #[trigger] actions[i] is Attempt
}

/// An address of which both forms are URLs gives two endpoints: the
/// encrypted one first, the unencrypted one second.
pub proof fn lemma_encrypted_first(address: Seq<char>)
    requires
        url_serialization(spec_encrypted_prefix() + address) is Some,
        url_serialization(spec_plain_prefix() + address) is Some,
    ensures
        spec_candidates(address) == seq![
            url_serialization(spec_encrypted_prefix() + address)->0,
            url_serialization(spec_plain_prefix() + address)->0,
        ],
{
}

/// The command to connect tries the first endpoint and keeps the others
/// for later, in their order.
pub proof fn lemma_connect_tries_first(w: WorkerView, address: Seq<char>)
    requires
        spec_candidates(address).len() > 0,
    ensures
        w.on_connect(address).1 == seq![
            ActionView::DropSocket,
            ActionView::Attempt { url: spec_candidates(address)[0] },
        ],
        w.on_connect(address).0.pending == spec_candidates(address).skip(1),
{
}

/// An attempt that succeeds is followed by no other: nothing is kept to
/// try, and nothing is tried again before the application commands it.
pub proof fn lemma_success_ends_attempts(w: WorkerView, input: WorkerInput)
    requires
        w.phase == WorkerPhase::Connecting,
        w.current is Some,
    ensures
        !spec_attempts(w.on_attempt_succeeded().1),
        w.on_attempt_succeeded().0.phase == WorkerPhase::Connected,
        w.on_attempt_succeeded().0.pending.len() == 0,
        !(input matches WorkerInput::Command(WsCommand::Connect { .. })) ==> !spec_attempts(
            w.on_attempt_succeeded().0.step(input).1,
        ),
{
}

/// Only while an attempt is under way, or on the command to connect, does
/// the worker try an endpoint.
pub proof fn lemma_attempts_on_demand(w: WorkerView, input: WorkerInput)
    requires
        w.phase != WorkerPhase::Connecting,
        !(input matches WorkerInput::Command(WsCommand::Connect { .. })),
    ensures
        !spec_attempts(w.step(input).1),
        w.step(input).0.phase != WorkerPhase::Connecting,
{
}

/// A worker that has ended raises no event and does nothing.
pub proof fn lemma_stopped_is_final(w: WorkerView, input: WorkerInput)
    requires
        w.phase == WorkerPhase::Stopped,
    ensures
        w.step(input) == (w, Seq::<ActionView>::empty()),
{
}

impl WorkerView {
    /// Whether what the worker holds fits where it stands: an endpoint
    /// while it connects or is connected, endpoints to fall back to only
    /// while it connects.
    pub open spec fn fits(self) -> bool {
        match self.phase {
            WorkerPhase::Idle => self.current is None && self.pending.len() == 0,
            WorkerPhase::Connecting => self.current is Some,
            WorkerPhase::Connected => self.current is Some && self.pending.len() == 0,
            WorkerPhase::Stopped => self.current is None && self.pending.len() == 0,
        }
    }
}

/// A new worker holds what fits, and so does a worker after every step.
pub proof fn lemma_step_keeps_fit(w: WorkerView, input: WorkerInput)
    requires
        w.fits(),
    ensures
        WorkerView::idle().fits(),
        w.step(input).0.fits(),
{
}

/// Whatever happens to a worker that is not connected, no frame is sent
/// and no text of the server is raised.
pub proof fn lemma_no_traffic_without_socket(w: WorkerView, input: WorkerInput, i: int)
    requires
        w.phase != WorkerPhase::Connected,
        0 <= i < w.step(input).1.len(),
    ensures
        !(w.step(input).1[i] is Send),
        !(w.step(input).1[i] matches ActionView::Emit(EventView::TextMessage(_))),
{
}

} // verus!
