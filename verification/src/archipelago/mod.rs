//! The session protocol: wire messages, catalog cache, transport worker
//! and the engine that reconciles what the server sends with what the
//! client knows.

pub mod client_messages;
pub mod collections;
pub mod consts;
pub mod datapackage;
pub mod decimal;
pub mod events;
pub mod intents;
pub mod json;
pub mod reconcile;
pub mod server_messages;
pub mod shared_types;
pub mod wire;
pub mod worker;

pub use events::{handle_batch, handle_ws_event, poll_websocket};
pub use intents::{init_connecting, is_blank, send_item, send_websocket_msg};
pub use reconcile::{
    extend_directory, extend_locations, fetch_list, handle_ap_message, handle_connected,
    handle_data_package, handle_received_items, handle_room_info, handle_room_update, reconcile,
};

use vstd::prelude::*;
use bevy::platform::collections::{HashMap, HashSet};
use crate::graph::Element;
use collections::{
    catalog_map, catalogs_get, catalogs_insert, catalogs_new, directory_get, directory_map,
    directory_new, location_set, locations_contains, locations_new,
};
use datapackage::{load_datapackage, spec_load, CacheFile, CatalogView, MyDataPackage};
use server_messages::{APConnectionError, PrintJSONMessage, SlotData};
use shared_types::{LocationID, PlayerID};

verus! {

/// The wish of the application to connect with the address, slot and
/// password that the session state holds.
#[derive(Debug, Clone, Copy, Default)]
pub struct StartConnect;

/// What the application asks of the transport worker.
#[derive(Debug)]
pub enum WsCommand {
    /// Connect to the given address. The worker tries the encrypted scheme
    /// first, then the unencrypted one.
    Connect { address: String },
    /// Send one text frame.
    SendText(String),
    /// Close the connection and end the worker.
    Shutdown,
}

/// The mathematical value of a [`WsCommand`].
pub enum CommandView {
    Connect { address: Seq<char> },
    SendText(Seq<char>),
    Shutdown,
}

impl View for WsCommand {
    type V = CommandView;

    open spec fn view(&self) -> CommandView {
        match self {
            WsCommand::Connect { address } => CommandView::Connect { address: address@ },
            WsCommand::SendText(text) => CommandView::SendText(text@),
            WsCommand::Shutdown => CommandView::Shutdown,
        }
    }
}

/// What the transport worker tells the application.
#[derive(Debug)]
pub enum WsEvent {
    Connected { url: String },
    ConnectionError { error: String },
    Disconnected { reason: String },
    TextMessage(String),
}

/// The mathematical value of a [`WsEvent`].
pub enum EventView {
    Connected { url: Seq<char> },
    ConnectionError { error: Seq<char> },
    Disconnected { reason: Seq<char> },
    TextMessage(Seq<char>),
}

impl View for WsEvent {
    type V = EventView;

    open spec fn view(&self) -> EventView {
        match self {
            WsEvent::Connected { url } => EventView::Connected { url: url@ },
            WsEvent::ConnectionError { error } => EventView::ConnectionError { error: error@ },
            WsEvent::Disconnected { reason } => EventView::Disconnected { reason: reason@ },
            WsEvent::TextMessage(text) => EventView::TextMessage(text@),
        }
    }
}

/// Where the session stands with the server.
#[derive(Debug, Clone, Copy, PartialEq, Eq, Structural)]
pub enum ConnectionStatus {
    Disconnected,
    Connecting,
    Connected,
}

/// The client's knowledge of the session.
#[derive(Debug)]
pub struct ArchipelagoState {
    pub status: ConnectionStatus,
    pub address: String,
    pub slot: String,
    pub password: String,
    pub slotdata: Option<SlotData>,
    pub player_id: PlayerID,
    pub checked_locations: HashSet<LocationID>,
    pub data_packages: HashMap<String, MyDataPackage>,
    pub games: HashMap<PlayerID, String>,
    pub hint_points: isize,
}

/// The mathematical value of an [`ArchipelagoState`].
pub struct SessionView {
    pub status: ConnectionStatus,
    pub address: Seq<char>,
    pub slot: Seq<char>,
    pub password: Seq<char>,
    pub slotdata: Option<SlotData>,
    pub player_id: int,
    pub checked_locations: Set<int>,
    pub catalogs: Map<Seq<char>, CatalogView>,
    pub games: Map<int, Seq<char>>,
    pub hint_points: int,
}

/// The catalogs of a cache, each by its value.
pub open spec fn spec_catalog_views(catalogs: Map<Seq<char>, MyDataPackage>) -> Map<
    Seq<char>,
    CatalogView,
> {
    catalogs.map_values(|c: MyDataPackage| c@)
}

impl View for ArchipelagoState {
    type V = SessionView;

    open spec fn view(&self) -> SessionView {
        SessionView {
            status: self.status,
            address: self.address@,
            slot: self.slot@,
            password: self.password@,
            slotdata: self.slotdata,
            player_id: self.player_id as int,
            checked_locations: location_set(self.checked_locations),
            catalogs: spec_catalog_views(catalog_map(self.data_packages)),
            games: directory_map(self.games),
            hint_points: self.hint_points as int,
        }
    }
}

impl SessionView {
    /// The state of a client that has not connected yet and knows the
    /// catalogs of `catalogs`.
    pub open spec fn initial(catalogs: Map<Seq<char>, CatalogView>) -> SessionView {
        SessionView {
            status: ConnectionStatus::Disconnected,
            address: Seq::empty(),
            slot: Seq::empty(),
            password: Seq::empty(),
            slotdata: None,
            player_id: 0,
            checked_locations: Set::empty(),
            catalogs,
            games: Map::empty(),
            hint_points: 0,
        }
    }
}

/// The login succeeded and the session state is filled.
#[derive(Debug, Clone, Copy, Default)]
pub struct ConnectedMessage;

/// The player made `element`.
#[derive(Debug, Clone, Copy)]
pub struct SendItemMessage {
    pub element: Element,
}

/// Why no connection came about.
#[derive(Debug)]
pub enum ConnectionErrorMessage {
    UriParseError,
    ConnectionFailed(String),
}

/// The mathematical value of a [`ConnectionErrorMessage`].
pub enum ErrorView {
    UriParseError,
    ConnectionFailed(Seq<char>),
}

impl View for ConnectionErrorMessage {
    type V = ErrorView;

    open spec fn view(&self) -> ErrorView {
        match self {
            ConnectionErrorMessage::UriParseError => ErrorView::UriParseError,
            ConnectionErrorMessage::ConnectionFailed(reason) => ErrorView::ConnectionFailed(
                reason@,
            ),
        }
    }
}

/// The server gave `element` to this player.
#[derive(Debug, Clone, Copy)]
pub struct ReceivedItemMessage {
    pub element: Element,
}

/// What the application is to do after the engine has taken a message or
/// an event.
#[derive(Debug)]
pub enum SessionOutput {
    /// Hand the command to the transport worker.
    Command(WsCommand),
    Connected(ConnectedMessage),
    ReceivedItem(ReceivedItemMessage),
    ConnectionError(ConnectionErrorMessage),
    /// The server refused the login, for these reasons.
    Refused(Vec<APConnectionError>),
    /// Write the file to the cache.
    SaveCatalog(CacheFile),
    /// Show the text to the player.
    Display(PrintJSONMessage),
}

/// The mathematical value of a [`SessionOutput`].
pub enum OutputView {
    Command(CommandView),
    Connected,
    ReceivedItem(Element),
    ConnectionError(ErrorView),
    Refused(Seq<APConnectionError>),
    SaveCatalog { path: Seq<Seq<char>>, content: Seq<char> },
    Display(PrintJSONMessage),
}

impl View for SessionOutput {
    type V = OutputView;

    open spec fn view(&self) -> OutputView {
        match self {
            SessionOutput::Command(command) => OutputView::Command(command@),
            SessionOutput::Connected(_) => OutputView::Connected,
            SessionOutput::ReceivedItem(message) => OutputView::ReceivedItem(message.element),
            SessionOutput::ConnectionError(error) => OutputView::ConnectionError(error@),
            SessionOutput::Refused(errors) => OutputView::Refused(errors@),
            SessionOutput::SaveCatalog(file) => OutputView::SaveCatalog {
                path: file.path.deep_view(),
                content: file.content@,
            },
            SessionOutput::Display(message) => OutputView::Display(*message),
        }
    }
}

/// The views of a list of outputs.
pub open spec fn spec_output_views(outputs: Seq<SessionOutput>) -> Seq<OutputView> {
    Seq::new(outputs.len(), |i: int| outputs[i]@)
}

/// Entering a catalog into a cache enters its value into the values.
pub proof fn lemma_catalog_views_insert(
    catalogs: Map<Seq<char>, MyDataPackage>,
    game: Seq<char>,
    catalog: MyDataPackage,
)
    ensures
        spec_catalog_views(catalogs.insert(game, catalog)) == spec_catalog_views(catalogs).insert(
            game,
            catalog@,
        ),
{
}

impl ArchipelagoState {
    /// A client that has not connected yet and knows the catalogs of
    /// `data_packages`.
    pub fn new(data_packages: HashMap<String, MyDataPackage>) -> (state: Self)
        ensures
            state@ == SessionView::initial(spec_catalog_views(catalog_map(data_packages))),
    {
        ArchipelagoState {
            status: ConnectionStatus::Disconnected,
            address: String::new(),
            slot: String::new(),
            password: String::new(),
            slotdata: None,
            player_id: 0,
            checked_locations: locations_new(),
            data_packages,
            games: directory_new(),
            hint_points: 0,
        }
    }

    /// Whether the session is connected.
    pub fn connected(&self) -> (yes: bool)
        ensures
            yes == (self@.status == ConnectionStatus::Connected),
    {
        match self.status {
            ConnectionStatus::Connected => true,
            _ => false,
        }
    }

    /// Whether the location `id` is known to be checked.
    pub fn is_checked(&self, id: LocationID) -> (yes: bool)
        ensures
            yes == self@.checked_locations.contains(id as int),
    {
        locations_contains(&self.checked_locations, id)
    }

    /// The game of the player in `slot`, where the directory knows it.
    pub fn game_of(&self, slot: PlayerID) -> (game: Option<&String>)
        ensures
            match game {
                Some(g) => self@.games.contains_key(slot as int) && self@.games[slot as int] == g@,
                None => !self@.games.contains_key(slot as int),
            },
    {
        directory_get(&self.games, slot)
    }

    /// The catalog kept for `game`, where there is one.
    pub fn catalog_of(&self, game: &str) -> (catalog: Option<&MyDataPackage>)
        ensures
            match catalog {
                Some(c) => self@.catalogs.contains_key(game@) && self@.catalogs[game@] == c@,
                None => !self@.catalogs.contains_key(game@),
            },
    {
        catalogs_get(&self.data_packages, game)
    }
}

impl Default for ArchipelagoState {
    /// A client that has not connected yet and knows no catalog.
    fn default() -> (state: Self)
        ensures
            state@ == SessionView::initial(Map::empty()),
    {
        let state = ArchipelagoState::new(catalogs_new());
        assert(spec_catalog_views(Map::<Seq<char>, MyDataPackage>::empty()) =~= Map::<
            Seq<char>,
            CatalogView,
        >::empty());
        state
    }
}

/// The catalogs that the files of a cache hold, where `contents` are the
/// texts of the files in the order in which they were read. A file that
/// holds no catalog is passed over; of two files for one game the later
/// counts.
pub open spec fn spec_cache(contents: Seq<Seq<char>>) -> Map<Seq<char>, CatalogView>
    decreases contents.len(),
{
    if contents.len() == 0 {
        Map::empty()
    } else {
        let before = spec_cache(contents.drop_last());
        match spec_load(contents.last()) {
            Some((game, catalog)) => before.insert(game, catalog),
            None => before,
        }
    }
}

/// Warms the cache from the texts of its files.
pub fn init_datapackages(contents: &Vec<String>) -> (data_packages: HashMap<String, MyDataPackage>)
    ensures
        spec_catalog_views(catalog_map(data_packages)) == spec_cache(contents.deep_view()),
{
    let ghost all = contents.deep_view();
    let mut data_packages = catalogs_new();
    let mut i: usize = 0;
    while i < contents.len()
        invariant
            i <= contents.len(),
            all == contents.deep_view(),
            spec_catalog_views(catalog_map(data_packages)) == spec_cache(all.take(i as int)),
        decreases contents.len() - i,
    {
        proof {
            assert(all.take(i + 1).drop_last() =~= all.take(i as int));
        }
        match load_datapackage(contents[i].as_str()) {
            Some(save) => {
                proof {
                    lemma_catalog_views_insert(
                        catalog_map(data_packages),
                        save.game@,
                        save.datapackage,
                    );
                }
                catalogs_insert(&mut data_packages, save.game, save.datapackage);
            },
            None => {},
        }
        i += 1;
    }
    assert(all.take(contents.len() as int) =~= all);
    data_packages
}

impl ArchipelagoState {
    /// A client that has not connected yet and knows the catalogs that the
    /// files of the cache hold.
    pub fn from_cache(contents: &Vec<String>) -> (state: Self)
        ensures
            state@ == SessionView::initial(spec_cache(contents.deep_view())),
    {
        ArchipelagoState::new(init_datapackages(contents))
    }
}

} // verus!
