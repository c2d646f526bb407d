//! The engine: how each message of the server changes what the client
//! knows, and what the application is to do about it.

use vstd::prelude::*;
use bevy::platform::collections::{HashMap, HashSet};
use crate::graph::{Element, Status};
use super::client_messages::{
    frame_json, spec_connect_json, spec_get_data_package_json, APClientMessage,
};
use super::collections::{
    catalog_map, catalogs_insert, directory_insert, directory_map, location_set, locations_insert,
    locations_new,
};
use super::consts::{ELEMENT_ID_OFFSET, ITEMS_HANDLING_ALL};
use super::datapackage::{
    save_datapackage, spec_cache_entry_json, spec_cache_path, spec_catalog_of, CatalogView,
    MyDataPackage,
};
use super::json::{json_value_text, print_json, JsonView};
use super::server_messages::{APServerMessage, DataPackageObject, NetworkItem, NetworkSlot, SlotData};
use super::shared_types::{APVersion, LocationID, PlayerID};
use super::{
    lemma_catalog_views_insert, spec_output_views, ArchipelagoState, CommandView,
    ConnectedMessage, ConnectionStatus, OutputView, ReceivedItemMessage, SessionOutput,
    SessionView, WsCommand,
};

verus! {

/// The name under which this client logs in.
pub open spec fn spec_game_name() -> Seq<char> {
    "Elementipelago"@
}

/// The name the directory gives the server itself, which sits in slot 0.
pub open spec fn spec_server_name() -> Seq<char> {
    "Archipelago"@
}

/// Whether the catalog kept for `game` is missing or has another checksum
/// than `checksum`.
pub open spec fn spec_stale(
    catalogs: Map<Seq<char>, CatalogView>,
    game: Seq<char>,
    checksum: Seq<char>,
) -> bool {
    !(catalogs.contains_key(game) && catalogs[game].checksum == checksum)
}

/// The games whose catalogs are to be fetched: those among the announced
/// whose kept catalog is stale, in the order of the announcement.
pub open spec fn spec_fetch_list(
    catalogs: Map<Seq<char>, CatalogView>,
    announced: Seq<(Seq<char>, Seq<char>)>,
) -> Seq<Seq<char>>
    decreases announced.len(),
{
    if announced.len() == 0 {
        seq![]
    } else {
        let before = spec_fetch_list(catalogs, announced.drop_last());
        if spec_stale(catalogs, announced.last().0, announced.last().1) {
            before.push(announced.last().0)
        } else {
            before
        }
    }
}

/// The set of the numbers in `ids`.
pub open spec fn spec_id_set(ids: Seq<isize>) -> Set<int> {
    Set::new(|x: int| exists|i: int| 0 <= i < ids.len() && ids[i] == x)
}

/// The directory after the slots of `slots` were entered into `games`, one
/// after the other.
pub open spec fn spec_directory(
    games: Map<int, Seq<char>>,
    slots: Seq<(PlayerID, NetworkSlot)>,
) -> Map<int, Seq<char>>
    decreases slots.len(),
{
    if slots.len() == 0 {
        games
    } else {
        let before = spec_directory(games, slots.drop_last());
        match slots.last().1.spec_directory_game() {
            Some(game) => before.insert(slots.last().0 as int, game),
            None => before,
        }
    }
}

/// Whether an item belongs to this game's elements.
pub open spec fn spec_is_element(item: NetworkItem) -> bool {
    item.item >= ELEMENT_ID_OFFSET
}

/// The element that an item of this game stands for.
pub open spec fn spec_element_of(item: NetworkItem) -> Element {
    ((item.item - ELEMENT_ID_OFFSET + 1) as u64, Status::INPUT)
}

/// The elements that a batch of items stands for: one for each item of
/// this game, in the order of arrival.
pub open spec fn spec_received(items: Seq<NetworkItem>) -> Seq<Element>
    decreases items.len(),
{
    if items.len() == 0 {
        seq![]
    } else {
        let before = spec_received(items.drop_last());
        if spec_is_element(items.last()) {
            before.push(spec_element_of(items.last()))
        } else {
            before
        }
    }
}

/// The cache after the catalogs of `games` were entered, one after the
/// other.
pub open spec fn spec_catalogs_after(
    catalogs: Map<Seq<char>, CatalogView>,
    games: Seq<(String, DataPackageObject)>,
) -> Map<Seq<char>, CatalogView>
    decreases games.len(),
{
    if games.len() == 0 {
        catalogs
    } else {
        spec_catalogs_after(catalogs, games.drop_last()).insert(
            games.last().0@,
            spec_catalog_of(games.last().1),
        )
    }
}

/// The order to write the cache file of a game.
pub open spec fn spec_save_output(game: Seq<char>, catalog: CatalogView) -> OutputView {
    OutputView::SaveCatalog {
        path: spec_cache_path(game),
        content: json_value_text(spec_cache_entry_json(game, catalog)),
    }
}

/// The set after the ids of `more` were added, if there are any.
pub open spec fn spec_merged(checked: Set<int>, more: Option<Vec<isize>>) -> Set<int> {
    match more {
        Some(ids) => checked.union(spec_id_set(ids@)),
        None => checked,
    }
}

/// The points after an update that may carry a new number.
pub open spec fn spec_overwritten(points: int, update: Option<isize>) -> int {
    match update {
        Some(p) => p as int,
        None => points,
    }
}

impl SessionView {
    /// The frame that answers the first message of the server: the request
    /// for the stale catalogs, if there are any, and then the login.
    pub open spec fn login_frame(
        self,
        announced: Seq<(Seq<char>, Seq<char>)>,
        uuid: Seq<char>,
    ) -> JsonView {
        let fetch = spec_fetch_list(self.catalogs, announced);
        let login = spec_connect_json(
            self.password,
            spec_game_name(),
            self.slot,
            uuid,
            APVersion::spec_current(),
            ITEMS_HANDLING_ALL as int,
            seq![],
            true,
        );
        if fetch.len() > 0 {
            JsonView::Arr(seq![spec_get_data_package_json(fetch), login])
        } else {
            JsonView::Arr(seq![login])
        }
    }

    /// What follows the first message of the server: nothing once the
    /// session is connected, else the one frame that logs in.
    pub open spec fn on_room_info(
        self,
        announced: Seq<(Seq<char>, Seq<char>)>,
        uuid: Seq<char>,
    ) -> Seq<OutputView> {
        if self.status == ConnectionStatus::Connected {
            seq![]
        } else {
            seq![
                OutputView::Command(
                    CommandView::SendText(json_value_text(self.login_frame(announced, uuid))),
                ),
            ]
        }
    }

    /// The state after the server confirmed the login.
    pub open spec fn after_connected(
        self,
        slot: PlayerID,
        checked_locations: Seq<isize>,
        slot_data: SlotData,
        slot_info: Seq<(PlayerID, NetworkSlot)>,
        hint_points: isize,
    ) -> SessionView {
        SessionView {
            status: ConnectionStatus::Connected,
            slotdata: Some(slot_data),
            player_id: slot as int,
            checked_locations: spec_id_set(checked_locations),
            games: spec_directory(self.games.insert(0, spec_server_name()), slot_info),
            hint_points: hint_points as int,
            ..self
        }
    }
}

/// The state after the engine has taken `des`.
pub open spec fn spec_reconciled(s: SessionView, des: APServerMessage) -> SessionView {
    match des {
        APServerMessage::ConnectionRefused { .. } => SessionView {
            status: ConnectionStatus::Disconnected,
            ..s
        },
        APServerMessage::Connected {
            slot,
            checked_locations,
            slot_data,
            slot_info,
            hint_points,
            ..
        } => s.after_connected(slot, checked_locations@, slot_data, slot_info@, hint_points),
        APServerMessage::DataPackage { data } => SessionView {
            catalogs: spec_catalogs_after(s.catalogs, data.games@),
            ..s
        },
        APServerMessage::RoomUpdate { checked_locations, hint_points, .. } => SessionView {
            checked_locations: spec_merged(s.checked_locations, checked_locations),
            hint_points: spec_overwritten(s.hint_points, hint_points),
            ..s
        },
        _ => s,
    }
}

/// What the application is to do after the engine has taken `des` in the
/// state `s`, where `uuid` is the identity drawn for a login.
pub open spec fn spec_outputs(s: SessionView, des: APServerMessage, uuid: Seq<char>) -> Seq<
    OutputView,
> {
    match des {
        APServerMessage::RoomInfo { datapackage_checksums, .. } => s.on_room_info(
            datapackage_checksums.deep_view(),
            uuid,
        ),
        APServerMessage::ConnectionRefused { errors } => seq![OutputView::Refused(errors@)],
        APServerMessage::Connected { .. } => seq![OutputView::Connected],
        APServerMessage::ReceivedItems { items, .. } => spec_received(items@).map_values(
            |e: Element| OutputView::ReceivedItem(e),
        ),
        APServerMessage::DataPackage { data } => Seq::new(
            data.games@.len(),
            |i: int| spec_save_output(data.games@[i].0@, spec_catalog_of(data.games@[i].1)),
        ),
        APServerMessage::PrintJSON(message) => seq![OutputView::Display(message)],
        _ => seq![],
    }
}

/// Adds the ids of `ids` to `set`.
pub fn extend_locations(set: &mut HashSet<LocationID>, ids: &Vec<LocationID>)
    ensures
        location_set(*final(set)) == location_set(*old(set)).union(spec_id_set(ids@)),
{
    let mut i: usize = 0;
    while i < ids.len()
        invariant
            i <= ids.len(),
            location_set(*set) == location_set(*old(set)).union(spec_id_set(ids@.take(i as int))),
        decreases ids.len() - i,
    {
        locations_insert(set, ids[i]);
        proof {
            let before = ids@.take(i as int);
            let after = ids@.take(i + 1);
            assert forall|x: int| spec_id_set(after).contains(x) <==> (spec_id_set(
                before,
            ).contains(x) || x == ids[i as int]) by {
                if x == ids[i as int] {
                    assert(after[i as int] == x);
                }
            }
        }
        i += 1;
    }
    assert(ids@.take(ids.len() as int) == ids@);
}

/// The games whose catalogs are to be fetched.
pub fn fetch_list(state: &ArchipelagoState, announced: &Vec<(String, String)>) -> (games: Vec<
    String,
>)
    ensures
        games.deep_view() == spec_fetch_list(state@.catalogs, announced.deep_view()),
{
    let ghost all = announced.deep_view();
    let mut games: Vec<String> = Vec::new();
    let mut i: usize = 0;
    while i < announced.len()
        invariant
            i <= announced.len(),
            all == announced.deep_view(),
            games.deep_view() == spec_fetch_list(state@.catalogs, all.take(i as int)),
        decreases announced.len() - i,
    {
        let stale = match state.catalog_of(announced[i].0.as_str()) {
            Some(catalog) => !(catalog.checksum == announced[i].1),
            None => true,
        };
        proof {
            assert(all.take(i + 1).drop_last() =~= all.take(i as int));
        }
        if stale {
            games.push(announced[i].0.clone());
        }
        i += 1;
    }
    assert(all.take(announced.len() as int) =~= all);
    games
}

/// Takes the first message of the server. `uuid` is the identity under
/// which the client logs in.
pub fn handle_room_info(
    state: &ArchipelagoState,
    announced: &Vec<(String, String)>,
    uuid: String,
) -> (outputs: Vec<SessionOutput>)
    ensures
        spec_output_views(outputs@) == state@.on_room_info(announced.deep_view(), uuid@),
{
    let mut outputs: Vec<SessionOutput> = Vec::new();
    if state.connected() {
        return outputs;
    }
    let to_fetch = fetch_list(state, announced);
    let mut msg: Vec<APClientMessage> = Vec::new();
    if to_fetch.len() > 0 {
        msg.push(APClientMessage::GetDataPackage { games: to_fetch });
    }
    let tags: Vec<String> = Vec::new();
    assert(tags.deep_view() =~= Seq::<Seq<char>>::empty());
    msg.push(
        APClientMessage::Connect {
            password: state.password.clone(),
            game: "Elementipelago".to_string(),
            name: state.slot.clone(),
            uuid,
            version: APVersion::default(),
            items_handling: ITEMS_HANDLING_ALL,
            tags,
            slot_data: true,
        },
    );
    let frame = frame_json(&msg);
    assert(frame@->Arr_0 =~= state@.login_frame(announced.deep_view(), uuid@)->Arr_0);
    outputs.push(SessionOutput::Command(WsCommand::SendText(print_json(&frame))));
    outputs
}

/// Enters the slots of `slots` into the directory.
pub fn extend_directory(games: &mut HashMap<PlayerID, String>, slots: &Vec<(PlayerID, NetworkSlot)>)
    ensures
        directory_map(*final(games)) == spec_directory(directory_map(*old(games)), slots@),
{
    let mut i: usize = 0;
    while i < slots.len()
        invariant
            i <= slots.len(),
            directory_map(*games) == spec_directory(
                directory_map(*old(games)),
                slots@.take(i as int),
            ),
        decreases slots.len() - i,
    {
        proof {
            assert(slots@.take(i + 1).drop_last() =~= slots@.take(i as int));
        }
        match &slots[i].1 {
            NetworkSlot::Spectator { game, .. } => {
                directory_insert(games, slots[i].0, game.clone());
            },
            NetworkSlot::Player { game, .. } => {
                directory_insert(games, slots[i].0, game.clone());
            },
            NetworkSlot::Group { .. } => {},
        }
        i += 1;
    }
    assert(slots@.take(slots.len() as int) == slots@);
}

/// Takes the confirmation of the login: the first full account of the
/// session.
pub fn handle_connected(
    state: &mut ArchipelagoState,
    slot: PlayerID,
    checked_locations: &Vec<LocationID>,
    slot_data: SlotData,
    slot_info: &Vec<(PlayerID, NetworkSlot)>,
    hint_points: isize,
) -> (outputs: Vec<SessionOutput>)
    ensures
        final(state)@ == old(state)@.after_connected(
            slot,
            checked_locations@,
            slot_data,
            slot_info@,
            hint_points,
        ),
        spec_output_views(outputs@) == seq![OutputView::Connected],
{
    state.slotdata = Some(slot_data);
    let mut checked = locations_new();
    extend_locations(&mut checked, checked_locations);
    assert(location_set(checked) =~= spec_id_set(checked_locations@));
    state.checked_locations = checked;
    state.player_id = slot;
    state.hint_points = hint_points;
    directory_insert(&mut state.games, 0, "Archipelago".to_string());
    extend_directory(&mut state.games, slot_info);
    state.status = ConnectionStatus::Connected;
    let mut outputs: Vec<SessionOutput> = Vec::new();
    outputs.push(SessionOutput::Connected(ConnectedMessage));
    outputs
}

/// Takes a batch of items: one notice for each item of this game, in the
/// order of arrival.
pub fn handle_received_items(items: &Vec<NetworkItem>) -> (outputs: Vec<SessionOutput>)
    ensures
        spec_output_views(outputs@) == spec_received(items@).map_values(
            |e: Element| OutputView::ReceivedItem(e),
        ),
{
    let mut outputs: Vec<SessionOutput> = Vec::new();
    let mut i: usize = 0;
    while i < items.len()
        invariant
            i <= items.len(),
            spec_output_views(outputs@) == spec_received(items@.take(i as int)).map_values(
                |e: Element| OutputView::ReceivedItem(e),
            ),
        decreases items.len() - i,
    {
        proof {
            assert(items@.take(i + 1).drop_last() =~= items@.take(i as int));
        }
        let item = items[i];
        let ghost before = spec_output_views(outputs@);
        if item.item >= ELEMENT_ID_OFFSET as isize {
            let element: Element = (item.item as u64 - ELEMENT_ID_OFFSET + 1, Status::INPUT);
            outputs.push(SessionOutput::ReceivedItem(ReceivedItemMessage { element }));
            assert(spec_output_views(outputs@) =~= before.push(OutputView::ReceivedItem(element)));
        }
        i += 1;
    }
    assert(items@.take(items.len() as int) == items@);
    outputs
}

/// Takes the catalogs that the server sent: each replaces what the cache
/// held for its game, and is to be written to its file.
pub fn handle_data_package(state: &mut ArchipelagoState, games: &Vec<(String, DataPackageObject)>) -> (outputs:
    Vec<SessionOutput>)
    ensures
        final(state)@ == (SessionView {
            catalogs: spec_catalogs_after(old(state)@.catalogs, games@),
            ..old(state)@
        }),
        spec_output_views(outputs@) == Seq::new(
            games@.len(),
            |i: int| spec_save_output(games@[i].0@, spec_catalog_of(games@[i].1)),
        ),
{
    let mut outputs: Vec<SessionOutput> = Vec::new();
    let mut i: usize = 0;
    while i < games.len()
        invariant
            i <= games.len(),
            state@ == (SessionView {
                catalogs: spec_catalogs_after(old(state)@.catalogs, games@.take(i as int)),
                ..old(state)@
            }),
            outputs.len() == i,
            forall|k: int|
                0 <= k < i ==> (#[trigger] outputs[k])@ == spec_save_output(
                    games@[k].0@,
                    spec_catalog_of(games@[k].1),
                ),
        decreases games.len() - i,
    {
        proof {
            assert(games@.take(i + 1).drop_last() =~= games@.take(i as int));
        }
        let mdp = MyDataPackage::from_object(&games[i].1);
        let file = save_datapackage(games[i].0.as_str(), &mdp);
        proof {
            lemma_catalog_views_insert(catalog_map(state.data_packages), games@[i as int].0@, mdp);
        }
        catalogs_insert(&mut state.data_packages, games[i].0.clone(), mdp);
        outputs.push(SessionOutput::SaveCatalog(file));
        i += 1;
    }
    assert(games@.take(games.len() as int) == games@);
    outputs
}

/// Takes an update of the room: ids that it names are added to the checked
/// locations, and points that it names replace the hint points.
pub fn handle_room_update(
    state: &mut ArchipelagoState,
    checked_locations: &Option<Vec<LocationID>>,
    hint_points: Option<isize>,
)
    ensures
        final(state)@ == (SessionView {
            checked_locations: spec_merged(old(state)@.checked_locations, *checked_locations),
            hint_points: spec_overwritten(old(state)@.hint_points, hint_points),
            ..old(state)@
        }),
{
    match checked_locations {
        Some(checked) => {
            extend_locations(&mut state.checked_locations, checked);
        },
        None => {},
    }
    match hint_points {
        Some(points) => {
            state.hint_points = points;
        },
        None => {},
    }
}

/// Takes one message of the server. `uuid` is the identity to log in under,
/// should the message call for a login.
pub fn reconcile(state: &mut ArchipelagoState, des: APServerMessage, uuid: String) -> (outputs:
    Vec<SessionOutput>)
    ensures
        final(state)@ == spec_reconciled(old(state)@, des),
        spec_output_views(outputs@) == spec_outputs(old(state)@, des, uuid@),
{
    match des {
        APServerMessage::RoomInfo { datapackage_checksums, .. } => handle_room_info(
            state,
            &datapackage_checksums,
            uuid,
        ),
        APServerMessage::ConnectionRefused { errors } => {
            state.status = ConnectionStatus::Disconnected;
            let mut outputs: Vec<SessionOutput> = Vec::new();
            outputs.push(SessionOutput::Refused(errors));
            outputs
        },
        APServerMessage::Connected {
            slot,
            checked_locations,
            slot_data,
            slot_info,
            hint_points,
            ..
        } => handle_connected(
            state,
            slot,
            &checked_locations,
            slot_data,
            &slot_info,
            hint_points,
        ),
        APServerMessage::ReceivedItems { items, .. } => handle_received_items(&items),
        APServerMessage::DataPackage { data } => handle_data_package(state, &data.games),
        APServerMessage::RoomUpdate { checked_locations, hint_points, .. } => {
            handle_room_update(state, &checked_locations, hint_points);
            let outputs: Vec<SessionOutput> = Vec::new();
            outputs
        },
        APServerMessage::PrintJSON(message) => {
            let mut outputs: Vec<SessionOutput> = Vec::new();
            outputs.push(SessionOutput::Display(message));
            outputs
        },
        _ => {
            let outputs: Vec<SessionOutput> = Vec::new();
            outputs
        },
    }
}

/// `Uuid::new_v4` of the `uuid` crate, as `bevy` hands it on, and its
/// `to_string`: a random identity in its hyphenated form, which has 36
/// characters. Nothing else is claimed of it, and two calls may differ.
#[verifier::external_body]
fn new_client_uuid() -> (id: String)
    ensures
        id@.len() == 36,
{
    bevy::asset::uuid::Uuid::new_v4().to_string()
}

/// Takes one message of the server, drawing a fresh identity where the
/// message calls for a login.
pub fn handle_ap_message(state: &mut ArchipelagoState, des: APServerMessage) -> (outputs: Vec<
    SessionOutput,
>)
    ensures
        final(state)@ == spec_reconciled(old(state)@, des),
        exists|uuid: Seq<char>|
            spec_output_views(outputs@) == #[trigger] spec_outputs(old(state)@, des, uuid),
{
    let login = match &des {
        APServerMessage::RoomInfo { .. } => !state.connected(),
        _ => false,
    };
    let uuid = if login {
        new_client_uuid()
    } else {
        String::new()
    };
    reconcile(state, des, uuid)
}

/// How often `game` occurs in `games`.
pub open spec fn spec_occurrences(games: Seq<Seq<char>>, game: Seq<char>) -> nat
    decreases games.len(),
{
    if games.len() == 0 {
        0
    } else if games.last() == game {
        spec_occurrences(games.drop_last(), game) + 1
    } else {
        spec_occurrences(games.drop_last(), game)
    }
}

/// Whether no game is announced twice.
pub open spec fn spec_announced_once(announced: Seq<(Seq<char>, Seq<char>)>) -> bool {
    forall|i: int, j: int|
        0 <= i < j < announced.len() ==> (#[trigger] announced[i]).0 != (#[trigger] announced[j]).0
}

/// A game that is not announced is not fetched.
pub proof fn lemma_unannounced_not_fetched(
    catalogs: Map<Seq<char>, CatalogView>,
    announced: Seq<(Seq<char>, Seq<char>)>,
    game: Seq<char>,
)
    requires
        forall|i: int| 0 <= i < announced.len() ==> (#[trigger] announced[i]).0 != game,
    ensures
        spec_occurrences(spec_fetch_list(catalogs, announced), game) == 0,
    decreases announced.len(),
{
    if announced.len() > 0 {
        let before = announced.drop_last();
        lemma_unannounced_not_fetched(catalogs, before, game);
        let fetched = spec_fetch_list(catalogs, before);
        assert(fetched.push(announced.last().0).drop_last() =~= fetched);
    }
}

/// Of the games that the server announces, each once: a game whose kept
/// catalog has the announced checksum is not fetched, and a game whose
/// kept catalog has another checksum, or of which none is kept, is fetched
/// exactly once.
pub proof fn lemma_fetch_follows_checksum(
    catalogs: Map<Seq<char>, CatalogView>,
    announced: Seq<(Seq<char>, Seq<char>)>,
    i: int,
)
    requires
        0 <= i < announced.len(),
        spec_announced_once(announced),
    ensures
        spec_occurrences(spec_fetch_list(catalogs, announced), announced[i].0) == (if spec_stale(
            catalogs,
            announced[i].0,
            announced[i].1,
        ) {
            1nat
        } else {
            0nat
        }),
    decreases announced.len(),
{
    let game = announced[i].0;
    let before = announced.drop_last();
    let fetched = spec_fetch_list(catalogs, before);
    assert(fetched.push(announced.last().0).drop_last() =~= fetched);
    if i == announced.len() - 1 {
        lemma_unannounced_not_fetched(catalogs, before, game);
    } else {
        lemma_fetch_follows_checksum(catalogs, before, i);
    }
}

/// How many items of a batch do not belong to this game.
pub open spec fn spec_foreign_count(items: Seq<NetworkItem>) -> nat
    decreases items.len(),
{
    if items.len() == 0 {
        0
    } else if spec_is_element(items.last()) {
        spec_foreign_count(items.drop_last())
    } else {
        spec_foreign_count(items.drop_last()) + 1
    }
}

/// A batch gives one element for each of its items but those that do not
/// belong to this game, and the elements keep the order of the items: they
/// are those of the items of this game, as the batch lists them.
pub proof fn lemma_received_keeps_order(items: Seq<NetworkItem>)
    ensures
        spec_received(items).len() + spec_foreign_count(items) == items.len(),
        spec_received(items) == items.filter(|item: NetworkItem| spec_is_element(item)).map_values(
            |item: NetworkItem| spec_element_of(item),
        ),
    decreases items.len(),
{
    reveal(Seq::filter);
    if items.len() > 0 {
        lemma_received_keeps_order(items.drop_last());
    }
}

/// An update of the room never takes a location from the checked ones,
/// and one that names no locations leaves them as they are.
pub proof fn lemma_room_update_keeps_locations(s: SessionView, des: APServerMessage)
    requires
        des is RoomUpdate,
    ensures
        s.checked_locations.subset_of(spec_reconciled(s, des).checked_locations),
        des matches APServerMessage::RoomUpdate { checked_locations: None, .. } ==> spec_reconciled(
            s,
            des,
        ).checked_locations == s.checked_locations,
        des matches APServerMessage::RoomUpdate { checked_locations: Some(ids), .. }
            ==> spec_reconciled(s, des).checked_locations == s.checked_locations.union(
            spec_id_set(ids@),
        ),
{
}

/// Once the session is connected, the first message of the server changes
/// nothing and is answered by nothing: no login is sent a second time.
pub proof fn lemma_room_info_once(s: SessionView, des: APServerMessage, uuid: Seq<char>)
    requires
        s.status == ConnectionStatus::Connected,
        des is RoomInfo,
    ensures
        spec_reconciled(s, des) == s,
        spec_outputs(s, des, uuid) == Seq::<OutputView>::empty(),
{
}

/// The state after the confirmation of the login is connected, whatever
/// the state before.
pub proof fn lemma_connected_after_confirmation(s: SessionView, des: APServerMessage)
    requires
        des is Connected,
    ensures
        spec_reconciled(s, des).status == ConnectionStatus::Connected,
        spec_reconciled(s, des).slotdata is Some,
        spec_reconciled(s, des).catalogs == s.catalogs,
{
}

/// A refusal of the server and the loss of the connection leave the
/// catalogs, the directory and the checked locations as they are.
pub proof fn lemma_disconnect_keeps_knowledge(s: SessionView, des: APServerMessage)
    requires
        des is ConnectionRefused,
    ensures
        spec_reconciled(s, des).status == ConnectionStatus::Disconnected,
        spec_reconciled(s, des).catalogs == s.catalogs,
        spec_reconciled(s, des).games == s.games,
        spec_reconciled(s, des).checked_locations == s.checked_locations,
{
}

/// Entering slots into a directory leaves every slot as it was that is
/// not among them.
pub proof fn lemma_directory_keeps_others(
    games: Map<int, Seq<char>>,
    slots: Seq<(PlayerID, NetworkSlot)>,
    slot: int,
)
    requires
        forall|i: int| 0 <= i < slots.len() ==> (#[trigger] slots[i]).0 != slot,
    ensures
        spec_directory(games, slots).contains_key(slot) == games.contains_key(slot),
        games.contains_key(slot) ==> spec_directory(games, slots)[slot] == games[slot],
    decreases slots.len(),
{
    if slots.len() > 0 {
        let before = slots.drop_last();
        lemma_directory_keeps_others(games, before, slot);
    }
}

/// After the confirmation of the login the directory names the server in
/// slot 0, unless the server itself lists a player there.
pub proof fn lemma_server_sits_in_slot_zero(s: SessionView, des: APServerMessage)
    requires
        des matches APServerMessage::Connected { slot_info, .. } && forall|i: int|
            0 <= i < slot_info@.len() ==> (#[trigger] slot_info@[i]).0 != 0,
    ensures
        spec_reconciled(s, des).games.contains_key(0),
        spec_reconciled(s, des).games[0] == spec_server_name(),
{
    match des {
        APServerMessage::Connected { slot_info, .. } => {
            lemma_directory_keeps_others(s.games.insert(0, spec_server_name()), slot_info@, 0);
        },
        _ => {},
    }
}

/// The answer to the first message of the server ends with the login, and
/// asks for catalogs before it exactly where there are some to fetch: then
/// for those of the fetch list.
pub proof fn lemma_login_frame_shape(
    s: SessionView,
    announced: Seq<(Seq<char>, Seq<char>)>,
    uuid: Seq<char>,
)
    ensures
        s.login_frame(announced, uuid) is Arr,
        s.login_frame(announced, uuid)->Arr_0.last() == spec_connect_json(
            s.password,
            spec_game_name(),
            s.slot,
            uuid,
            APVersion::spec_current(),
            ITEMS_HANDLING_ALL as int,
            seq![],
            true,
        ),
        spec_fetch_list(s.catalogs, announced).len() == 0 ==> s.login_frame(
            announced,
            uuid,
        )->Arr_0.len() == 1,
        spec_fetch_list(s.catalogs, announced).len() > 0 ==> s.login_frame(
            announced,
            uuid,
        )->Arr_0.len() == 2 && s.login_frame(announced, uuid)->Arr_0[0]
            == spec_get_data_package_json(spec_fetch_list(s.catalogs, announced)),
{
}

impl SessionView {
    /// Whether a session that is connected knows the seed parameters of
    /// its slot.
    pub open spec fn settled(self) -> bool {
        self.status == ConnectionStatus::Connected ==> self.slotdata is Some
    }
}

/// A session that is connected knows the seed parameters of its slot: so
/// it is at the start, and so it stays whatever message is taken.
pub proof fn lemma_reconciled_stays_settled(s: SessionView, des: APServerMessage)
    requires
        s.settled(),
    ensures
        spec_reconciled(s, des).settled(),
        forall|catalogs: Map<Seq<char>, CatalogView>| #[trigger]
            SessionView::initial(catalogs).settled(),
{
}

} // verus!
