//! What the application wants of the session: to connect, and to report
//! the elements that the player made.

use vstd::prelude::*;
use vstd::string::StrSliceExecFns;
use crate::graph::{Element, Status};
use super::client_messages::{frame_json, spec_location_checks_json, APClientMessage};
use super::json::{json_value_text, print_json, JsonView};
use super::shared_types::LocationID;
use super::{
    ArchipelagoState, CommandView, ConnectionErrorMessage, ConnectionStatus, ErrorView,
    OutputView, SendItemMessage, SessionOutput, SessionView, StartConnect, WsCommand,
};

verus! {

/// Whether `c` is white space.
pub open spec fn spec_is_space(c: char) -> bool {
    let u = c as u32;
    ||| 0x09 <= u <= 0x0D
    ||| u == 0x20
    ||| u == 0x85
    ||| u == 0xA0
    ||| u == 0x1680
    ||| 0x2000 <= u <= 0x200A
    ||| u == 0x2028
    ||| u == 0x2029
    ||| u == 0x202F
    ||| u == 0x205F
    ||| u == 0x3000
}

/// Whether `s` holds nothing but white space.
pub open spec fn spec_is_blank(s: Seq<char>) -> bool {
    forall|i: int| 0 <= i < s.len() ==> spec_is_space(#[trigger] s[i])
}

fn is_space(c: char) -> (yes: bool)
    ensures
        yes == spec_is_space(c),
{
    let u = c as u32;
    (0x09 <= u && u <= 0x0D) || u == 0x20 || u == 0x85 || u == 0xA0 || u == 0x1680 || (0x2000 <= u
        && u <= 0x200A) || u == 0x2028 || u == 0x2029 || u == 0x202F || u == 0x205F || u == 0x3000
}

/// Whether `s` holds nothing but white space.
pub fn is_blank(s: &str) -> (yes: bool)
    ensures
        yes == spec_is_blank(s@),
{
    let n = s.unicode_len();
    let mut i: usize = 0;
    while i < n
        invariant
            i <= n,
            n == s@.len(),
            forall|k: int| 0 <= k < i ==> spec_is_space(#[trigger] s@[k]),
        decreases n - i,
    {
        if !is_space(s.get_char(i)) {
            return false;
        }
        i += 1;
    }
    true
}

impl SessionView {
    /// The message that reports the location of `element` as checked, or
    /// `None` where nothing is to be sent: the session is not connected,
    /// the element is no goal, or its location is checked already.
    pub open spec fn on_send_item(self, element: Element) -> Option<CommandView> {
        if self.status == ConnectionStatus::Connected && element.1 == Status::OUTPUT && element.0
            <= isize::MAX && !self.checked_locations.contains(element.0 as int) {
            Some(
                CommandView::SendText(
                    json_value_text(
                        JsonView::Arr(seq![spec_location_checks_json(seq![element.0 as isize])]),
                    ),
                ),
            )
        } else {
            None
        }
    }

    /// The state after the wish to connect was taken.
    pub open spec fn after_start_connect(self) -> SessionView {
        if spec_is_blank(self.address) {
            self
        } else {
            SessionView { status: ConnectionStatus::Connecting, ..self }
        }
    }

    /// What follows the wish to connect: an error where the address is
    /// blank, else the order for the worker to connect to it.
    pub open spec fn on_start_connect(self) -> OutputView {
        if spec_is_blank(self.address) {
            OutputView::ConnectionError(ErrorView::UriParseError)
        } else {
            OutputView::Command(CommandView::Connect { address: self.address })
        }
    }
}

/// Takes the wish of the application to connect.
pub fn init_connecting(_start: StartConnect, state: &mut ArchipelagoState) -> (output: SessionOutput)
    ensures
        final(state)@ == old(state)@.after_start_connect(),
        output@ == old(state)@.on_start_connect(),
{
    if is_blank(state.address.as_str()) {
        SessionOutput::ConnectionError(ConnectionErrorMessage::UriParseError)
    } else {
        state.status = ConnectionStatus::Connecting;
        SessionOutput::Command(WsCommand::Connect { address: state.address.clone() })
    }
}

/// The messages to send for the elements that the player made, in their
/// order.
pub open spec fn spec_sent(s: SessionView, messages: Seq<SendItemMessage>) -> Seq<CommandView>
    decreases messages.len(),
{
    if messages.len() == 0 {
        seq![]
    } else {
        let before = spec_sent(s, messages.drop_last());
        match s.on_send_item(messages.last().element) {
            Some(command) => before.push(command),
            None => before,
        }
    }
}

/// The views of a list of commands.
pub open spec fn spec_command_views(commands: Seq<WsCommand>) -> Seq<CommandView> {
    Seq::new(commands.len(), |i: int| commands[i]@)
}

/// The message to send for one element that the player made.
pub fn send_item(state: &ArchipelagoState, message: &SendItemMessage) -> (command: Option<
    WsCommand,
>)
    ensures
        match command {
            Some(c) => state@.on_send_item(message.element) == Some(c@),
            None => state@.on_send_item(message.element) is None,
        },
{
    if !state.connected() {
        return None;
    }
    match message.element.1 {
        Status::OUTPUT => {},
        _ => {
            return None;
        },
    }
    if message.element.0 > isize::MAX as u64 {
        return None;
    }
    let id = message.element.0 as isize;
    if state.is_checked(id) {
        return None;
    }
    let mut locations: Vec<LocationID> = Vec::new();
    locations.push(id);
    let mut frame: Vec<APClientMessage> = Vec::new();
    frame.push(APClientMessage::LocationChecks { locations });
    let j = frame_json(&frame);
    assert(j@->Arr_0 =~= seq![spec_location_checks_json(seq![id])]);
    Some(WsCommand::SendText(print_json(&j)))
}

/// The messages to send for the elements that the player made.
pub fn send_websocket_msg(state: &ArchipelagoState, messages: &Vec<SendItemMessage>) -> (commands:
    Vec<WsCommand>)
    ensures
        spec_command_views(commands@) == spec_sent(state@, messages@),
{
    let mut commands: Vec<WsCommand> = Vec::new();
    let mut i: usize = 0;
    while i < messages.len()
        invariant
            i <= messages.len(),
            spec_command_views(commands@) == spec_sent(state@, messages@.take(i as int)),
        decreases messages.len() - i,
    {
        proof {
            assert(messages@.take(i + 1).drop_last() =~= messages@.take(i as int));
        }
        match send_item(state, &messages[i]) {
            Some(command) => {
                commands.push(command);
            },
            None => {},
        }
        i += 1;
    }
    assert(messages@.take(messages.len() as int) == messages@);
    commands
}

/// For an element whose location is checked already nothing is sent.
pub proof fn lemma_checked_location_not_sent(s: SessionView, element: Element)
    requires
        s.checked_locations.contains(element.0 as int),
    ensures
        s.on_send_item(element) is None,
{
}

} // verus!
