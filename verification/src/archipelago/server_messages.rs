//! Messages that the server sends.

use vstd::prelude::*;
use super::decimal::{parse_usize, spec_digits_value};
use super::json::{json_text_value, parse_json, spec_entry_views, spec_views, str_same, Json, JsonView};
use super::shared_types::{APVersion, ItemID, LocationID, PlayerID, TeamID};
use super::wire::{
    only_fields, read_field, read_optional, read_optional_table, read_table, read_table_field,
    spec_entry_models, spec_field, spec_models, spec_only_fields, spec_optional,
    spec_optional_entry_models, spec_optional_table, spec_table, spec_table_field, Wire,
};

verus! {

/// How far a room lets its players use a command.
#[derive(Debug, Clone, Copy, PartialEq, Eq, Structural)]
pub enum Permission {
    Disabled,
    Enabled,
    Goal,
    Auto,
    AutoEnabled,
}

impl Permission {
    /// The flags the wire carries for this permission.
    pub open spec fn spec_code(self) -> int {
        match self {
            Permission::Disabled => 0,
            Permission::Enabled => 1,
            Permission::Goal => 2,
            Permission::Auto => 6,
            Permission::AutoEnabled => 7,
        }
    }

    /// The permission that `code` stands for, if it stands for one.
    pub open spec fn spec_from_code(code: int) -> Option<Permission> {
        if code == 0 {
            Some(Permission::Disabled)
        } else if code == 1 {
            Some(Permission::Enabled)
        } else if code == 2 {
            Some(Permission::Goal)
        } else if code == 6 {
            Some(Permission::Auto)
        } else if code == 7 {
            Some(Permission::AutoEnabled)
        } else {
            None
        }
    }

    /// The permission that `code` stands for, if it stands for one.
    pub fn from_code(code: u8) -> (p: Option<Permission>)
        ensures
            p == Permission::spec_from_code(code as int),
    {
        if code == 0 {
            Some(Permission::Disabled)
        } else if code == 1 {
            Some(Permission::Enabled)
        } else if code == 2 {
            Some(Permission::Goal)
        } else if code == 6 {
            Some(Permission::Auto)
        } else if code == 7 {
            Some(Permission::AutoEnabled)
        } else {
            None
        }
    }
}

/// Why the server refused a login.
#[derive(Debug, Clone, Copy, PartialEq, Eq, Structural)]
pub enum APConnectionError {
    InvalidSlot,
    InvalidGame,
    IncompatibleVersion,
    InvalidPassword,
    InvalidItemsHandling,
}

#[derive(Debug, Clone, Copy, PartialEq, Eq, Structural)]
pub struct Permissions {
    pub release: Permission,
    pub collect: Permission,
    pub remaining: Permission,
}

#[derive(Debug)]
pub struct NetworkPlayer {
    pub team: TeamID,
    pub slot: PlayerID,
    pub alias: String,
    pub name: String,
}

/// One item as the server names it: what it is, where it was found and
/// whose world it was found in.
#[derive(Debug, Clone, Copy, PartialEq, Eq, Structural)]
pub struct NetworkItem {
    pub item: ItemID,
    pub location: LocationID,
    pub player: PlayerID,
    pub flags: u8,
}

/// The seed parameters of this slot, from which the recipe graph is made.
#[derive(Debug, Clone, Copy, PartialEq, Eq, Structural)]
pub struct SlotData {
    pub element_amount: usize,
    pub filler_amount: usize,
    pub intermediate_amount: usize,
    pub graph_seed: usize,
}

/// Who sits in a slot.
#[derive(Debug)]
pub enum NetworkSlot {
    Spectator { name: String, game: String },
    Player { name: String, game: String },
    Group { name: String, game: String, group_members: Vec<usize> },
}

impl NetworkSlot {
    /// The game a slot adds to the directory: that of a player or of a
    /// spectator. A group adds none.
    pub open spec fn spec_directory_game(self) -> Option<Seq<char>> {
        match self {
            NetworkSlot::Spectator { game, .. } => Some(game@),
            NetworkSlot::Player { game, .. } => Some(game@),
            NetworkSlot::Group { .. } => None,
        }
    }
}

/// The catalog of one game as the server sends it.
#[derive(Debug)]
pub struct DataPackageObject {
    pub checksum: String,
    pub item_name_groups: Vec<(String, Vec<String>)>,
    pub item_name_to_id: Vec<(String, ItemID)>,
    pub location_name_groups: Vec<(String, Vec<String>)>,
    pub location_name_to_id: Vec<(String, LocationID)>,
}

#[derive(Debug)]
pub struct DataPackageGames {
    pub games: Vec<(String, DataPackageObject)>,
}

/// One piece of a text to display.
#[derive(Debug)]
pub struct JsonData {
    pub text: String,
}

/// A text to display, kept for whoever presents it.
#[derive(Debug)]
#[allow(inconsistent_fields)]
pub enum PrintJSONMessage {
    Join { data: Vec<JsonData>, team: TeamID, slot: PlayerID, tags: Vec<String> },
    Tutorial { data: Vec<JsonData> },
    Text { data: Vec<JsonData> },
}

#[derive(Debug)]
#[allow(inconsistent_fields)]
pub enum APServerMessage {
    RoomInfo {
        version: APVersion,
        generator_version: APVersion,
        tags: Vec<String>,
        password: bool,
        permissions: Permissions,
        hint_cost: isize,
        location_check_points: isize,
        games: Vec<String>,
        datapackage_checksums: Vec<(String, String)>,
        seed_name: String,
    },
    ConnectionRefused { errors: Vec<APConnectionError> },
    Connected {
        team: TeamID,
        slot: PlayerID,
        players: Vec<NetworkPlayer>,
        missing_locations: Vec<LocationID>,
        checked_locations: Vec<LocationID>,
        slot_data: SlotData,
        slot_info: Vec<(PlayerID, NetworkSlot)>,
        hint_points: isize,
    },
    ReceivedItems { index: isize, items: Vec<NetworkItem> },
    LocationInfo { locations: Vec<NetworkItem> },
    RoomUpdate {
        version: Option<APVersion>,
        generator_version: Option<APVersion>,
        tags: Option<Vec<String>>,
        password: Option<bool>,
        permissions: Option<Permissions>,
        hint_cost: Option<isize>,
        location_check_points: Option<isize>,
        games: Option<Vec<String>>,
        datapackage_checksums: Option<Vec<(String, String)>>,
        seed_name: Option<String>,
        team: Option<usize>,
        slot: Option<usize>,
        players: Option<Vec<NetworkPlayer>>,
        checked_locations: Option<Vec<isize>>,
        slot_data: Option<SlotData>,
        slot_info: Option<Vec<(PlayerID, NetworkSlot)>>,
        hint_points: Option<isize>,
    },
    PrintJSON(PrintJSONMessage),
    DataPackage { data: DataPackageGames },
    Bounced,
    InvalidPacket { typ: String, original_cmd: Option<String>, text: String },
    Retrieved,
    SetReply,
    /// A message whose tag this client does not know.
    Unrecognized { cmd: String },
}

impl Wire for APVersion {
    type Model = (int, int, int, Seq<char>);

    open spec fn model(&self) -> (int, int, int, Seq<char>) {
        self.spec_parts()
    }

    open spec fn spec_read(j: JsonView) -> Option<(int, int, int, Seq<char>)> {
        match (
            spec_field::<usize>(j, "major"@),
            spec_field::<usize>(j, "minor"@),
            spec_field::<usize>(j, "build"@),
            spec_field::<String>(j, "class"@),
        ) {
            (Some(major), Some(minor), Some(build), Some(class)) => Some(
                (major as int, minor as int, build as int, class),
            ),
            _ => None,
        }
    }

    fn read(j: &Json) -> (r: Option<APVersion>) {
        let major = read_field::<usize>(j, "major")?;
        let minor = read_field::<usize>(j, "minor")?;
        let build = read_field::<usize>(j, "build")?;
        let class = read_field::<String>(j, "class")?;
        Some(APVersion { major, minor, build, class })
    }
}

impl Wire for Permission {
    type Model = Permission;

    open spec fn model(&self) -> Permission {
        *self
    }

    open spec fn spec_read(j: JsonView) -> Option<Permission> {
        match u8::spec_read(j) {
            Some(code) => Permission::spec_from_code(code as int),
            None => None,
        }
    }

    fn read(j: &Json) -> (r: Option<Permission>) {
        Permission::from_code(u8::read(j)?)
    }
}

impl Wire for Permissions {
    type Model = Permissions;

    open spec fn model(&self) -> Permissions {
        *self
    }

    open spec fn spec_read(j: JsonView) -> Option<Permissions> {
        match (
            spec_field::<Permission>(j, "release"@),
            spec_field::<Permission>(j, "collect"@),
            spec_field::<Permission>(j, "remaining"@),
        ) {
            (Some(release), Some(collect), Some(remaining)) => Some(
                Permissions { release, collect, remaining },
            ),
            _ => None,
        }
    }

    fn read(j: &Json) -> (r: Option<Permissions>) {
        let release = read_field::<Permission>(j, "release")?;
        let collect = read_field::<Permission>(j, "collect")?;
        let remaining = read_field::<Permission>(j, "remaining")?;
        Some(Permissions { release, collect, remaining })
    }
}

/// Whether `j` has a field `time` that holds a number. The clock of the
/// server is checked for and then passed over.
pub open spec fn spec_has_time(j: JsonView) -> bool {
    j.field("time"@) matches Some(t) && t.is_number()
}

/// Whether `m` is the first message of the server that `j` carries.
pub open spec fn spec_room_info_matches(j: JsonView, m: APServerMessage) -> bool {
    match m {
        APServerMessage::RoomInfo {
            version,
            generator_version,
            tags,
            password,
            permissions,
            hint_cost,
            location_check_points,
            games,
            datapackage_checksums,
            seed_name,
        } => {
            &&& spec_field::<APVersion>(j, "version"@) == Some(version.model())
            &&& spec_field::<APVersion>(j, "generator_version"@) == Some(generator_version.model())
            &&& spec_field::<Vec<String>>(j, "tags"@) == Some(tags.model())
            &&& spec_field::<bool>(j, "password"@) == Some(password)
            &&& spec_field::<Permissions>(j, "permissions"@) == Some(permissions)
            &&& spec_field::<isize>(j, "hint_cost"@) == Some(hint_cost)
            &&& spec_field::<isize>(j, "location_check_points"@) == Some(location_check_points)
            &&& spec_field::<Vec<String>>(j, "games"@) == Some(games.model())
            &&& spec_table_field::<String>(j, "datapackage_checksums"@) == Some(
                spec_entry_models(datapackage_checksums@),
            )
            &&& spec_field::<String>(j, "seed_name"@) == Some(seed_name@)
            &&& spec_has_time(j)
        },
        _ => false,
    }
}

/// Reads the first message of the server.
pub fn read_room_info(j: &Json) -> (r: Option<APServerMessage>)
    ensures
        match r {
            Some(m) => spec_room_info_matches(j@, m),
            None => forall|m: APServerMessage| !spec_room_info_matches(j@, m),
        },
{
    let version = read_field::<APVersion>(j, "version")?;
    let generator_version = read_field::<APVersion>(j, "generator_version")?;
    let tags = read_field::<Vec<String>>(j, "tags")?;
    let password = read_field::<bool>(j, "password")?;
    let permissions = read_field::<Permissions>(j, "permissions")?;
    let hint_cost = read_field::<isize>(j, "hint_cost")?;
    let location_check_points = read_field::<isize>(j, "location_check_points")?;
    let games = read_field::<Vec<String>>(j, "games")?;
    let datapackage_checksums = read_table_field::<String>(j, "datapackage_checksums")?;
    let seed_name = read_field::<String>(j, "seed_name")?;
    if !j.field("time")?.is_number() {
        return None;
    }
    Some(
        APServerMessage::RoomInfo {
            version,
            generator_version,
            tags,
            password,
            permissions,
            hint_cost,
            location_check_points,
            games,
            datapackage_checksums,
            seed_name,
        },
    )
}

impl APConnectionError {
    /// The reason that `name` names, if it names one.
    pub open spec fn spec_named(name: Seq<char>) -> Option<APConnectionError> {
        if name == "InvalidSlot"@ {
            Some(APConnectionError::InvalidSlot)
        } else if name == "InvalidGame"@ {
            Some(APConnectionError::InvalidGame)
        } else if name == "IncompatibleVersion"@ {
            Some(APConnectionError::IncompatibleVersion)
        } else if name == "InvalidPassword"@ {
            Some(APConnectionError::InvalidPassword)
        } else if name == "InvalidItemsHandling"@ {
            Some(APConnectionError::InvalidItemsHandling)
        } else {
            None
        }
    }

    /// The reason that `name` names, if it names one.
    pub fn named(name: &str) -> (r: Option<APConnectionError>)
        ensures
            r == APConnectionError::spec_named(name@),
    {
        if str_same(name, "InvalidSlot") {
            Some(APConnectionError::InvalidSlot)
        } else if str_same(name, "InvalidGame") {
            Some(APConnectionError::InvalidGame)
        } else if str_same(name, "IncompatibleVersion") {
            Some(APConnectionError::IncompatibleVersion)
        } else if str_same(name, "InvalidPassword") {
            Some(APConnectionError::InvalidPassword)
        } else if str_same(name, "InvalidItemsHandling") {
            Some(APConnectionError::InvalidItemsHandling)
        } else {
            None
        }
    }
}

impl Wire for APConnectionError {
    type Model = APConnectionError;

    open spec fn model(&self) -> APConnectionError {
        *self
    }

    open spec fn spec_read(j: JsonView) -> Option<APConnectionError> {
        match j.as_str() {
            Some(name) => APConnectionError::spec_named(name),
            None => None,
        }
    }

    fn read(j: &Json) -> (r: Option<APConnectionError>) {
        APConnectionError::named(j.as_str()?.as_str())
    }
}

impl Wire for NetworkPlayer {
    type Model = (usize, usize, Seq<char>, Seq<char>);

    open spec fn model(&self) -> (usize, usize, Seq<char>, Seq<char>) {
        (self.team, self.slot, self.alias@, self.name@)
    }

    open spec fn spec_read(j: JsonView) -> Option<(usize, usize, Seq<char>, Seq<char>)> {
        match (
            spec_field::<usize>(j, "team"@),
            spec_field::<usize>(j, "slot"@),
            spec_field::<String>(j, "alias"@),
            spec_field::<String>(j, "name"@),
        ) {
            (Some(team), Some(slot), Some(alias), Some(name)) => Some((team, slot, alias, name)),
            _ => None,
        }
    }

    fn read(j: &Json) -> (r: Option<NetworkPlayer>) {
        let team = read_field::<usize>(j, "team")?;
        let slot = read_field::<usize>(j, "slot")?;
        let alias = read_field::<String>(j, "alias")?;
        let name = read_field::<String>(j, "name")?;
        Some(NetworkPlayer { team, slot, alias, name })
    }
}

impl Wire for NetworkItem {
    type Model = NetworkItem;

    open spec fn model(&self) -> NetworkItem {
        *self
    }

    open spec fn spec_read(j: JsonView) -> Option<NetworkItem> {
        match (
            spec_field::<isize>(j, "item"@),
            spec_field::<isize>(j, "location"@),
            spec_field::<usize>(j, "player"@),
            spec_field::<u8>(j, "flags"@),
        ) {
            (Some(item), Some(location), Some(player), Some(flags)) => Some(
                NetworkItem { item, location, player, flags },
            ),
            _ => None,
        }
    }

    fn read(j: &Json) -> (r: Option<NetworkItem>) {
        let item = read_field::<isize>(j, "item")?;
        let location = read_field::<isize>(j, "location")?;
        let player = read_field::<usize>(j, "player")?;
        let flags = read_field::<u8>(j, "flags")?;
        Some(NetworkItem { item, location, player, flags })
    }
}

impl SlotData {
    /// The names of the fields of the seed parameters.
    pub open spec fn spec_field_names() -> Seq<Seq<char>> {
        seq!["element_amount"@, "filler_amount"@, "intermediate_amount"@, "graph_seed"@]
    }

    fn field_names() -> (names: Vec<String>)
        ensures
            names.deep_view() == SlotData::spec_field_names(),
    {
        let mut names: Vec<String> = Vec::new();
        names.push("element_amount".to_string());
        names.push("filler_amount".to_string());
        names.push("intermediate_amount".to_string());
        names.push("graph_seed".to_string());
        names
    }
}

/// The seed parameters are read strictly: a field that is not one of the
/// four is an error.
impl Wire for SlotData {
    type Model = SlotData;

    open spec fn model(&self) -> SlotData {
        *self
    }

    open spec fn spec_read(j: JsonView) -> Option<SlotData> {
        if spec_only_fields(j, SlotData::spec_field_names()) {
            match (
                spec_field::<usize>(j, "element_amount"@),
                spec_field::<usize>(j, "filler_amount"@),
                spec_field::<usize>(j, "intermediate_amount"@),
                spec_field::<usize>(j, "graph_seed"@),
            ) {
                (Some(element_amount), Some(filler_amount), Some(intermediate_amount), Some(graph_seed)) => Some(
                    SlotData { element_amount, filler_amount, intermediate_amount, graph_seed },
                ),
                _ => None,
            }
        } else {
            None
        }
    }

    fn read(j: &Json) -> (r: Option<SlotData>) {
        if !only_fields(j, &SlotData::field_names()) {
            return None;
        }
        let element_amount = read_field::<usize>(j, "element_amount")?;
        let filler_amount = read_field::<usize>(j, "filler_amount")?;
        let intermediate_amount = read_field::<usize>(j, "intermediate_amount")?;
        let graph_seed = read_field::<usize>(j, "graph_seed")?;
        Some(SlotData { element_amount, filler_amount, intermediate_amount, graph_seed })
    }
}

/// The mathematical value of a [`NetworkSlot`].
pub enum SlotModel {
    Spectator { name: Seq<char>, game: Seq<char> },
    Player { name: Seq<char>, game: Seq<char> },
    Group { name: Seq<char>, game: Seq<char>, group_members: Seq<usize> },
}

/// Who sits in a slot.
#[derive(Debug, Clone, Copy, PartialEq, Eq, Structural)]
pub enum SlotKind {
    Spectator,
    Player,
    Group,
}

impl SlotKind {
    /// The kind that a value names: by its name, or by its place among the
    /// kinds, counted from 0.
    pub open spec fn spec_read(j: JsonView) -> Option<SlotKind> {
        match j {
            JsonView::Str(name) => if name == "Spectator"@ {
                Some(SlotKind::Spectator)
            } else if name == "Player"@ {
                Some(SlotKind::Player)
            } else if name == "Group"@ {
                Some(SlotKind::Group)
            } else {
                None
            },
            JsonView::Int(place) => if place == 0 {
                Some(SlotKind::Spectator)
            } else if place == 1 {
                Some(SlotKind::Player)
            } else if place == 2 {
                Some(SlotKind::Group)
            } else {
                None
            },
            _ => None,
        }
    }

    /// The kind that `j` names.
    pub fn read(j: &Json) -> (kind: Option<SlotKind>)
        ensures
            kind == SlotKind::spec_read(j@),
    {
        match j {
            Json::Str(name) => {
                if str_same(name.as_str(), "Spectator") {
                    Some(SlotKind::Spectator)
                } else if str_same(name.as_str(), "Player") {
                    Some(SlotKind::Player)
                } else if str_same(name.as_str(), "Group") {
                    Some(SlotKind::Group)
                } else {
                    None
                }
            },
            Json::PosInt(place) => {
                if *place == 0 {
                    Some(SlotKind::Spectator)
                } else if *place == 1 {
                    Some(SlotKind::Player)
                } else if *place == 2 {
                    Some(SlotKind::Group)
                } else {
                    None
                }
            },
            Json::NegInt(place) => {
                if *place == 0 {
                    Some(SlotKind::Spectator)
                } else if *place == 1 {
                    Some(SlotKind::Player)
                } else if *place == 2 {
                    Some(SlotKind::Group)
                } else {
                    None
                }
            },
            _ => None,
        }
    }

    /// The kind that the field `type` of `j` names.
    pub open spec fn spec_of(j: JsonView) -> Option<SlotKind> {
        match j.field("type"@) {
            Some(v) => SlotKind::spec_read(v),
            None => None,
        }
    }
}

/// A slot says under `type` who sits in it, and names itself and its game.
/// A group lists its members besides.
impl Wire for NetworkSlot {
    type Model = SlotModel;

    open spec fn model(&self) -> SlotModel {
        match self {
            NetworkSlot::Spectator { name, game } => SlotModel::Spectator {
                name: name@,
                game: game@,
            },
            NetworkSlot::Player { name, game } => SlotModel::Player { name: name@, game: game@ },
            NetworkSlot::Group { name, game, group_members } => SlotModel::Group {
                name: name@,
                game: game@,
                group_members: group_members@,
            },
        }
    }

    open spec fn spec_read(j: JsonView) -> Option<SlotModel> {
        match (
            SlotKind::spec_of(j),
            spec_field::<String>(j, "name"@),
            spec_field::<String>(j, "game"@),
        ) {
            (Some(kind), Some(name), Some(game)) => match kind {
                SlotKind::Spectator => Some(SlotModel::Spectator { name, game }),
                SlotKind::Player => Some(SlotModel::Player { name, game }),
                SlotKind::Group => match spec_field::<Vec<usize>>(j, "group_members"@) {
                    Some(group_members) => Some(SlotModel::Group { name, game, group_members }),
                    None => None,
                },
            },
            _ => None,
        }
    }

    fn read(j: &Json) -> (r: Option<NetworkSlot>) {
        let kind = SlotKind::read(j.field("type")?)?;
        let name = read_field::<String>(j, "name")?;
        let game = read_field::<String>(j, "game")?;
        match kind {
            SlotKind::Spectator => Some(NetworkSlot::Spectator { name, game }),
            SlotKind::Player => Some(NetworkSlot::Player { name, game }),
            SlotKind::Group => {
                let group_members = read_field::<Vec<usize>>(j, "group_members")?;
                assert(group_members@ =~= spec_models(group_members@));
                Some(NetworkSlot::Group { name, game, group_members })
            },
        }
    }
}

/// Whether an entry of a table of slots is well formed: its name is the
/// decimal text of a slot number.
pub open spec fn spec_slot_entry_ok(entry: (Seq<char>, JsonView)) -> bool {
    &&& entry.0.len() > 0
    &&& spec_digits_value(entry.0) matches Some(v)
    &&& v <= usize::MAX
    &&& NetworkSlot::spec_read(entry.1) is Some
}

/// The table of slots that an object carries, each under its number.
pub open spec fn spec_slot_table(j: JsonView) -> Option<Seq<(usize, SlotModel)>> {
    match j {
        JsonView::Obj(entries) => if forall|i: int|
            0 <= i < entries.len() ==> spec_slot_entry_ok(#[trigger] entries[i]) {
            Some(
                Seq::new(
                    entries.len(),
                    |i: int|
                        (
                            spec_digits_value(entries[i].0)->0 as usize,
                            NetworkSlot::spec_read(entries[i].1)->0,
                        ),
                ),
            )
        } else {
            None
        },
        _ => None,
    }
}

/// The models of a table of slots.
pub open spec fn spec_slot_models(slots: Seq<(PlayerID, NetworkSlot)>) -> Seq<(usize, SlotModel)> {
    Seq::new(slots.len(), |i: int| (slots[i].0, slots[i].1.model()))
}

/// Reads a table of slots.
pub fn read_slot_table(j: &Json) -> (r: Option<Vec<(PlayerID, NetworkSlot)>>)
    ensures
        match r {
            Some(t) => spec_slot_table(j@) == Some(spec_slot_models(t@)),
            None => spec_slot_table(j@) is None,
        },
{
    match j.as_obj() {
        None => None,
        Some(entries) => {
            let ghost all = j@->Obj_0;
            let mut out: Vec<(PlayerID, NetworkSlot)> = Vec::new();
            let mut i: usize = 0;
            while i < entries.len()
                invariant
                    i <= entries.len(),
                    j@ == JsonView::Obj(all),
                    all == spec_entry_views(entries@),
                    out.len() == i,
                    forall|k: int|
                        0 <= k < i ==> spec_slot_entry_ok(#[trigger] all[k]) && out[k].0
                            == spec_digits_value(all[k].0)->0 && NetworkSlot::spec_read(all[k].1)
                            == Some(out[k].1.model()),
                decreases entries.len() - i,
            {
                let number = match parse_usize(entries[i].name.as_str()) {
                    Some(n) => n,
                    None => {
                        assert(!spec_slot_entry_ok(all[i as int]));
                        return None;
                    },
                };
                match NetworkSlot::read(&entries[i].value) {
                    Some(slot) => {
                        out.push((number, slot));
                    },
                    None => {
                        return None;
                    },
                }
                i += 1;
            }
            Some(out)
        },
    }
}

/// The table of slots that the field `name` of `j` carries.
pub open spec fn spec_slot_table_field(j: JsonView, name: Seq<char>) -> Option<
    Seq<(usize, SlotModel)>,
> {
    match j.field(name) {
        Some(v) => spec_slot_table(v),
        None => None,
    }
}

/// The table of slots that the field `name` of `j` carries, where the
/// field may be missing or `null`.
pub open spec fn spec_optional_slot_table(j: JsonView, name: Seq<char>) -> Option<
    Option<Seq<(usize, SlotModel)>>,
> {
    match j.field(name) {
        Some(v) => if v is Null {
            Some(None)
        } else {
            match spec_slot_table(v) {
                Some(t) => Some(Some(t)),
                None => None,
            }
        },
        None => Some(None),
    }
}

/// The models of a table of slots that may be missing.
pub open spec fn spec_optional_slot_models(slots: Option<Vec<(PlayerID, NetworkSlot)>>) -> Option<
    Seq<(usize, SlotModel)>,
> {
    match slots {
        Some(t) => Some(spec_slot_models(t@)),
        None => None,
    }
}

/// Reads the field `name` of `j` as a table of slots, where the field may
/// be missing or `null`.
pub fn read_optional_slot_table(j: &Json, name: &str) -> (r: Option<
    Option<Vec<(PlayerID, NetworkSlot)>>,
>)
    ensures
        match r {
            Some(t) => spec_optional_slot_table(j@, name@) == Some(spec_optional_slot_models(t)),
            None => spec_optional_slot_table(j@, name@) is None,
        },
{
    match j.field(name) {
        Some(v) => match v {
            Json::Null => Some(None),
            _ => match read_slot_table(v) {
                Some(t) => Some(Some(t)),
                None => None,
            },
        },
        None => Some(None),
    }
}

/// The mathematical value of a [`DataPackageObject`].
pub struct ObjectModel {
    pub checksum: Seq<char>,
    pub item_name_groups: Seq<(Seq<char>, Seq<Seq<char>>)>,
    pub item_name_to_id: Seq<(Seq<char>, isize)>,
    pub location_name_groups: Seq<(Seq<char>, Seq<Seq<char>>)>,
    pub location_name_to_id: Seq<(Seq<char>, isize)>,
}

impl DataPackageObject {
    /// The names of the fields of a catalog.
    pub open spec fn spec_field_names() -> Seq<Seq<char>> {
        seq![
            "checksum"@,
            "item_name_groups"@,
            "item_name_to_id"@,
            "location_name_groups"@,
            "location_name_to_id"@,
        ]
    }

    fn field_names() -> (names: Vec<String>)
        ensures
            names.deep_view() == DataPackageObject::spec_field_names(),
    {
        let mut names: Vec<String> = Vec::new();
        names.push("checksum".to_string());
        names.push("item_name_groups".to_string());
        names.push("item_name_to_id".to_string());
        names.push("location_name_groups".to_string());
        names.push("location_name_to_id".to_string());
        names
    }
}

/// The groups that the field `name` of `j` carries; none where the field
/// is missing.
pub open spec fn spec_groups(j: JsonView, name: Seq<char>) -> Option<
    Seq<(Seq<char>, Seq<Seq<char>>)>,
> {
    match j.field(name) {
        Some(v) => spec_table::<Vec<String>>(v),
        None => Some(Seq::empty()),
    }
}

fn read_groups(j: &Json, name: &str) -> (r: Option<Vec<(String, Vec<String>)>>)
    ensures
        match r {
            Some(t) => spec_groups(j@, name@) == Some(spec_entry_models(t@)),
            None => spec_groups(j@, name@) is None,
        },
{
    match j.field(name) {
        Some(v) => read_table::<Vec<String>>(v),
        None => {
            let groups: Vec<(String, Vec<String>)> = Vec::new();
            Some(groups)
        },
    }
}

/// A catalog is read strictly: a field that is not one of the five is an
/// error. The checksum and the two tables of numbers must be there.
impl Wire for DataPackageObject {
    type Model = ObjectModel;

    open spec fn model(&self) -> ObjectModel {
        ObjectModel {
            checksum: self.checksum@,
            item_name_groups: spec_entry_models(self.item_name_groups@),
            item_name_to_id: spec_entry_models(self.item_name_to_id@),
            location_name_groups: spec_entry_models(self.location_name_groups@),
            location_name_to_id: spec_entry_models(self.location_name_to_id@),
        }
    }

    open spec fn spec_read(j: JsonView) -> Option<ObjectModel> {
        if spec_only_fields(j, DataPackageObject::spec_field_names()) {
            match (
                spec_field::<String>(j, "checksum"@),
                spec_groups(j, "item_name_groups"@),
                spec_table_field::<isize>(j, "item_name_to_id"@),
                spec_groups(j, "location_name_groups"@),
                spec_table_field::<isize>(j, "location_name_to_id"@),
            ) {
                (
                    Some(checksum),
                    Some(item_name_groups),
                    Some(item_name_to_id),
                    Some(location_name_groups),
                    Some(location_name_to_id),
                ) => Some(
                    ObjectModel {
                        checksum,
                        item_name_groups,
                        item_name_to_id,
                        location_name_groups,
                        location_name_to_id,
                    },
                ),
                _ => None,
            }
        } else {
            None
        }
    }

    fn read(j: &Json) -> (r: Option<DataPackageObject>) {
        if !only_fields(j, &DataPackageObject::field_names()) {
            return None;
        }
        let checksum = read_field::<String>(j, "checksum")?;
        let item_name_groups = read_groups(j, "item_name_groups")?;
        let item_name_to_id = read_table_field::<isize>(j, "item_name_to_id")?;
        let location_name_groups = read_groups(j, "location_name_groups")?;
        let location_name_to_id = read_table_field::<isize>(j, "location_name_to_id")?;
        Some(
            DataPackageObject {
                checksum,
                item_name_groups,
                item_name_to_id,
                location_name_groups,
                location_name_to_id,
            },
        )
    }
}

impl Wire for DataPackageGames {
    type Model = Seq<(Seq<char>, ObjectModel)>;

    open spec fn model(&self) -> Seq<(Seq<char>, ObjectModel)> {
        spec_entry_models(self.games@)
    }

    open spec fn spec_read(j: JsonView) -> Option<Seq<(Seq<char>, ObjectModel)>> {
        spec_table_field::<DataPackageObject>(j, "games"@)
    }

    fn read(j: &Json) -> (r: Option<DataPackageGames>) {
        let games = read_table_field::<DataPackageObject>(j, "games")?;
        Some(DataPackageGames { games })
    }
}

impl Wire for JsonData {
    type Model = Seq<char>;

    open spec fn model(&self) -> Seq<char> {
        self.text@
    }

    open spec fn spec_read(j: JsonView) -> Option<Seq<char>> {
        spec_field::<String>(j, "text"@)
    }

    fn read(j: &Json) -> (r: Option<JsonData>) {
        let text = read_field::<String>(j, "text")?;
        Some(JsonData { text })
    }
}

/// The mathematical value of a [`PrintJSONMessage`].
pub enum PrintModel {
    Join { data: Seq<Seq<char>>, team: usize, slot: usize, tags: Seq<Seq<char>> },
    Tutorial { data: Seq<Seq<char>> },
    Text { data: Seq<Seq<char>> },
}

/// What a text that reports a player joining carries besides its pieces.
pub open spec fn spec_join_parts(j: JsonView) -> Option<(usize, usize, Seq<Seq<char>>)> {
    match (
        spec_field::<String>(j, "type"@),
        spec_field::<usize>(j, "team"@),
        spec_field::<usize>(j, "slot"@),
        spec_field::<Vec<String>>(j, "tags"@),
    ) {
        (Some(kind), Some(team), Some(slot), Some(tags)) => if kind == "Join"@ {
            Some((team, slot, tags))
        } else {
            None
        },
        _ => None,
    }
}

fn read_join_parts(j: &Json) -> (r: Option<(usize, usize, Vec<String>)>)
    ensures
        match r {
            Some(p) => spec_join_parts(j@) == Some((p.0, p.1, p.2.model())),
            None => spec_join_parts(j@) is None,
        },
{
    let kind = read_field::<String>(j, "type")?;
    let team = read_field::<usize>(j, "team")?;
    let slot = read_field::<usize>(j, "slot")?;
    let tags = read_field::<Vec<String>>(j, "tags")?;
    if str_same(kind.as_str(), "Join") {
        Some((team, slot, tags))
    } else {
        None
    }
}

/// A text to display must carry its pieces under `data`. It reports a
/// player joining where its `type` is `Join` and it names the team, the
/// slot and the tags; it belongs to the tutorial where its `type` is
/// `Tutorial`; any other is plain text.
impl Wire for PrintJSONMessage {
    type Model = PrintModel;

    open spec fn model(&self) -> PrintModel {
        match self {
            PrintJSONMessage::Join { data, team, slot, tags } => PrintModel::Join {
                data: data.model(),
                team: *team,
                slot: *slot,
                tags: tags.model(),
            },
            PrintJSONMessage::Tutorial { data } => PrintModel::Tutorial { data: data.model() },
            PrintJSONMessage::Text { data } => PrintModel::Text { data: data.model() },
        }
    }

    open spec fn spec_read(j: JsonView) -> Option<PrintModel> {
        match spec_field::<Vec<JsonData>>(j, "data"@) {
            Some(data) => match spec_join_parts(j) {
                Some((team, slot, tags)) => Some(PrintModel::Join { data, team, slot, tags }),
                None => if spec_field::<String>(j, "type"@) == Some("Tutorial"@) {
                    Some(PrintModel::Tutorial { data })
                } else {
                    Some(PrintModel::Text { data })
                },
            },
            None => None,
        }
    }

    fn read(j: &Json) -> (r: Option<PrintJSONMessage>) {
        let data = read_field::<Vec<JsonData>>(j, "data")?;
        match read_join_parts(j) {
            Some((team, slot, tags)) => Some(PrintJSONMessage::Join { data, team, slot, tags }),
            None => {
                let tutorial = match read_field::<String>(j, "type") {
                    Some(kind) => str_same(kind.as_str(), "Tutorial"),
                    None => false,
                };
                if tutorial {
                    Some(PrintJSONMessage::Tutorial { data })
                } else {
                    Some(PrintJSONMessage::Text { data })
                }
            },
        }
    }
}

/// Whether `m` is the confirmation of the login that `j` carries.
pub open spec fn spec_connected_matches(j: JsonView, m: APServerMessage) -> bool {
    match m {
        APServerMessage::Connected {
            team,
            slot,
            players,
            missing_locations,
            checked_locations,
            slot_data,
            slot_info,
            hint_points,
        } => {
            &&& spec_field::<usize>(j, "team"@) == Some(team)
            &&& spec_field::<usize>(j, "slot"@) == Some(slot)
            &&& spec_field::<Vec<NetworkPlayer>>(j, "players"@) == Some(players.model())
            &&& spec_field::<Vec<isize>>(j, "missing_locations"@) == Some(missing_locations.model())
            &&& spec_field::<Vec<isize>>(j, "checked_locations"@) == Some(checked_locations.model())
            &&& spec_field::<SlotData>(j, "slot_data"@) == Some(slot_data)
            &&& spec_slot_table_field(j, "slot_info"@) == Some(spec_slot_models(slot_info@))
            &&& spec_field::<isize>(j, "hint_points"@) == Some(hint_points)
        },
        _ => false,
    }
}

/// Reads the confirmation of the login.
pub fn read_connected(j: &Json) -> (r: Option<APServerMessage>)
    ensures
        match r {
            Some(m) => spec_connected_matches(j@, m),
            None => forall|m: APServerMessage| !spec_connected_matches(j@, m),
        },
{
    let team = read_field::<usize>(j, "team")?;
    let slot = read_field::<usize>(j, "slot")?;
    let players = read_field::<Vec<NetworkPlayer>>(j, "players")?;
    let missing_locations = read_field::<Vec<isize>>(j, "missing_locations")?;
    let checked_locations = read_field::<Vec<isize>>(j, "checked_locations")?;
    let slot_data = read_field::<SlotData>(j, "slot_data")?;
    let slot_info = read_slot_table(j.field("slot_info")?)?;
    let hint_points = read_field::<isize>(j, "hint_points")?;
    Some(
        APServerMessage::Connected {
            team,
            slot,
            players,
            missing_locations,
            checked_locations,
            slot_data,
            slot_info,
            hint_points,
        },
    )
}

/// Whether `m` is the update of the room that `j` carries: each field
/// that is there and not `null` with its value, each other with none.
pub open spec fn spec_room_update_matches(j: JsonView, m: APServerMessage) -> bool {
    match m {
        APServerMessage::RoomUpdate {
            version,
            generator_version,
            tags,
            password,
            permissions,
            hint_cost,
            location_check_points,
            games,
            datapackage_checksums,
            seed_name,
            team,
            slot,
            players,
            checked_locations,
            slot_data,
            slot_info,
            hint_points,
        } => {
            &&& spec_optional::<APVersion>(j, "version"@) == Some(version.model())
            &&& spec_optional::<APVersion>(j, "generator_version"@) == Some(
                generator_version.model(),
            )
            &&& spec_optional::<Vec<String>>(j, "tags"@) == Some(tags.model())
            &&& spec_optional::<bool>(j, "password"@) == Some(password)
            &&& spec_optional::<Permissions>(j, "permissions"@) == Some(permissions)
            &&& spec_optional::<isize>(j, "hint_cost"@) == Some(hint_cost)
            &&& spec_optional::<isize>(j, "location_check_points"@) == Some(location_check_points)
            &&& spec_optional::<Vec<String>>(j, "games"@) == Some(games.model())
            &&& spec_optional_table::<String>(j, "datapackage_checksums"@) == Some(
                spec_optional_entry_models(datapackage_checksums),
            )
            &&& spec_optional::<String>(j, "seed_name"@) == Some(seed_name.model())
            &&& spec_time_ok(j)
            &&& spec_optional::<usize>(j, "team"@) == Some(team)
            &&& spec_optional::<usize>(j, "slot"@) == Some(slot)
            &&& spec_optional::<Vec<NetworkPlayer>>(j, "players"@) == Some(players.model())
            &&& spec_optional::<Vec<isize>>(j, "checked_locations"@) == Some(
                checked_locations.model(),
            )
            &&& spec_optional::<SlotData>(j, "slot_data"@) == Some(slot_data)
            &&& spec_optional_slot_table(j, "slot_info"@) == Some(
                spec_optional_slot_models(slot_info),
            )
            &&& spec_optional::<isize>(j, "hint_points"@) == Some(hint_points)
        },
        _ => false,
    }
}

/// Whether the field `time` of `j`, if it is there, holds a number or
/// `null`.
pub open spec fn spec_time_ok(j: JsonView) -> bool {
    j.field("time"@) matches Some(t) ==> t.is_number() || t is Null
}

fn time_ok(j: &Json) -> (ok: bool)
    ensures
        ok == spec_time_ok(j@),
{
    match j.field("time") {
        Some(t) => match t {
            Json::Null => true,
            _ => t.is_number(),
        },
        None => true,
    }
}

/// Reads an update of the room.
pub fn read_room_update(j: &Json) -> (r: Option<APServerMessage>)
    ensures
        match r {
            Some(m) => spec_room_update_matches(j@, m),
            None => forall|m: APServerMessage| !spec_room_update_matches(j@, m),
        },
{
    let version = read_optional::<APVersion>(j, "version")?;
    let generator_version = read_optional::<APVersion>(j, "generator_version")?;
    let tags = read_optional::<Vec<String>>(j, "tags")?;
    let password = read_optional::<bool>(j, "password")?;
    let permissions = read_optional::<Permissions>(j, "permissions")?;
    let hint_cost = read_optional::<isize>(j, "hint_cost")?;
    let location_check_points = read_optional::<isize>(j, "location_check_points")?;
    let games = read_optional::<Vec<String>>(j, "games")?;
    let datapackage_checksums = read_optional_table::<String>(j, "datapackage_checksums")?;
    let seed_name = read_optional::<String>(j, "seed_name")?;
    if !time_ok(j) {
        return None;
    }
    let team = read_optional::<usize>(j, "team")?;
    let slot = read_optional::<usize>(j, "slot")?;
    let players = read_optional::<Vec<NetworkPlayer>>(j, "players")?;
    let checked_locations = read_optional::<Vec<isize>>(j, "checked_locations")?;
    let slot_data = read_optional::<SlotData>(j, "slot_data")?;
    let slot_info = read_optional_slot_table(j, "slot_info")?;
    let hint_points = read_optional::<isize>(j, "hint_points")?;
    Some(
        APServerMessage::RoomUpdate {
            version,
            generator_version,
            tags,
            password,
            permissions,
            hint_cost,
            location_check_points,
            games,
            datapackage_checksums,
            seed_name,
            team,
            slot,
            players,
            checked_locations,
            slot_data,
            slot_info,
            hint_points,
        },
    )
}

/// The messages that this client knows.
#[derive(Debug, Clone, Copy, PartialEq, Eq, Structural)]
pub enum MessageKind {
    RoomInfo,
    ConnectionRefused,
    Connected,
    ReceivedItems,
    LocationInfo,
    RoomUpdate,
    PrintJSON,
    DataPackage,
    Bounced,
    InvalidPacket,
    Retrieved,
    SetReply,
    Unrecognized,
}

impl MessageKind {
    /// The message that the tag `cmd` names.
    pub open spec fn spec_of(cmd: Seq<char>) -> MessageKind {
        if cmd == "RoomInfo"@ {
            MessageKind::RoomInfo
        } else if cmd == "ConnectionRefused"@ {
            MessageKind::ConnectionRefused
        } else if cmd == "Connected"@ {
            MessageKind::Connected
        } else if cmd == "ReceivedItems"@ {
            MessageKind::ReceivedItems
        } else if cmd == "LocationInfo"@ {
            MessageKind::LocationInfo
        } else if cmd == "RoomUpdate"@ {
            MessageKind::RoomUpdate
        } else if cmd == "PrintJSON"@ {
            MessageKind::PrintJSON
        } else if cmd == "DataPackage"@ {
            MessageKind::DataPackage
        } else if cmd == "Bounced"@ {
            MessageKind::Bounced
        } else if cmd == "InvalidPacket"@ {
            MessageKind::InvalidPacket
        } else if cmd == "Retrieved"@ {
            MessageKind::Retrieved
        } else if cmd == "SetReply"@ {
            MessageKind::SetReply
        } else {
            MessageKind::Unrecognized
        }
    }

    /// The message that the tag `cmd` names.
    pub fn of(cmd: &str) -> (kind: MessageKind)
        ensures
            kind == MessageKind::spec_of(cmd@),
    {
        if str_same(cmd, "RoomInfo") {
            MessageKind::RoomInfo
        } else if str_same(cmd, "ConnectionRefused") {
            MessageKind::ConnectionRefused
        } else if str_same(cmd, "Connected") {
            MessageKind::Connected
        } else if str_same(cmd, "ReceivedItems") {
            MessageKind::ReceivedItems
        } else if str_same(cmd, "LocationInfo") {
            MessageKind::LocationInfo
        } else if str_same(cmd, "RoomUpdate") {
            MessageKind::RoomUpdate
        } else if str_same(cmd, "PrintJSON") {
            MessageKind::PrintJSON
        } else if str_same(cmd, "DataPackage") {
            MessageKind::DataPackage
        } else if str_same(cmd, "Bounced") {
            MessageKind::Bounced
        } else if str_same(cmd, "InvalidPacket") {
            MessageKind::InvalidPacket
        } else if str_same(cmd, "Retrieved") {
            MessageKind::Retrieved
        } else if str_same(cmd, "SetReply") {
            MessageKind::SetReply
        } else {
            MessageKind::Unrecognized
        }
    }
}

/// Whether `m` is the message of the kind `kind` that `j` carries, whose
/// tag is `cmd`.
pub open spec fn spec_body_matches(
    kind: MessageKind,
    cmd: Seq<char>,
    j: JsonView,
    m: APServerMessage,
) -> bool {
    match kind {
        MessageKind::RoomInfo => spec_room_info_matches(j, m),
        MessageKind::ConnectionRefused => m matches APServerMessage::ConnectionRefused { errors }
            && spec_field::<Vec<APConnectionError>>(j, "errors"@) == Some(errors.model()),
        MessageKind::Connected => spec_connected_matches(j, m),
        MessageKind::ReceivedItems => m matches APServerMessage::ReceivedItems { index, items }
            && spec_field::<isize>(j, "index"@) == Some(index) && spec_field::<Vec<NetworkItem>>(
            j,
            "items"@,
        ) == Some(items.model()),
        MessageKind::LocationInfo => m matches APServerMessage::LocationInfo { locations }
            && spec_field::<Vec<NetworkItem>>(j, "locations"@) == Some(locations.model()),
        MessageKind::RoomUpdate => spec_room_update_matches(j, m),
        MessageKind::PrintJSON => m matches APServerMessage::PrintJSON(message)
            && PrintJSONMessage::spec_read(j) == Some(message.model()),
        MessageKind::DataPackage => m matches APServerMessage::DataPackage { data }
            && spec_field::<DataPackageGames>(j, "data"@) == Some(data.model()),
        MessageKind::Bounced => m is Bounced,
        MessageKind::InvalidPacket => m matches APServerMessage::InvalidPacket {
            typ,
            original_cmd,
            text,
        } && spec_field::<String>(j, "type"@) == Some(typ@) && spec_optional::<String>(
            j,
            "original_cmd"@,
        ) == Some(original_cmd.model()) && spec_field::<String>(j, "text"@) == Some(text@),
        MessageKind::Retrieved => m is Retrieved,
        MessageKind::SetReply => m is SetReply,
        MessageKind::Unrecognized => m matches APServerMessage::Unrecognized { cmd: tag } && tag@
            == cmd,
    }
}

/// Whether `m` is the message that `j` carries. The tag under `cmd` says
/// which message it is; a tag that this client does not know makes it
/// `Unrecognized`.
pub open spec fn spec_message_matches(j: JsonView, m: APServerMessage) -> bool {
    match spec_field::<String>(j, "cmd"@) {
        Some(cmd) => spec_body_matches(MessageKind::spec_of(cmd), cmd, j, m),
        None => false,
    }
}

/// Reads one message. `None` says that `j` carries none: it is no object,
/// has no tag, or lacks what a message of its tag must hold.
pub fn read_message(j: &Json) -> (r: Option<APServerMessage>)
    ensures
        match r {
            Some(m) => spec_message_matches(j@, m),
            None => forall|m: APServerMessage| !spec_message_matches(j@, m),
        },
{
    let cmd = read_field::<String>(j, "cmd")?;
    match MessageKind::of(cmd.as_str()) {
        MessageKind::RoomInfo => read_room_info(j),
        MessageKind::ConnectionRefused => {
            let errors = read_field::<Vec<APConnectionError>>(j, "errors")?;
            Some(APServerMessage::ConnectionRefused { errors })
        },
        MessageKind::Connected => read_connected(j),
        MessageKind::ReceivedItems => {
            let index = read_field::<isize>(j, "index")?;
            let items = read_field::<Vec<NetworkItem>>(j, "items")?;
            Some(APServerMessage::ReceivedItems { index, items })
        },
        MessageKind::LocationInfo => {
            let locations = read_field::<Vec<NetworkItem>>(j, "locations")?;
            Some(APServerMessage::LocationInfo { locations })
        },
        MessageKind::RoomUpdate => read_room_update(j),
        MessageKind::PrintJSON => {
            let message = PrintJSONMessage::read(j)?;
            Some(APServerMessage::PrintJSON(message))
        },
        MessageKind::DataPackage => {
            let data = read_field::<DataPackageGames>(j, "data")?;
            Some(APServerMessage::DataPackage { data })
        },
        MessageKind::Bounced => Some(APServerMessage::Bounced),
        MessageKind::InvalidPacket => {
            let typ = read_field::<String>(j, "type")?;
            let original_cmd = read_optional::<String>(j, "original_cmd")?;
            let text = read_field::<String>(j, "text")?;
            Some(APServerMessage::InvalidPacket { typ, original_cmd, text })
        },
        MessageKind::Retrieved => Some(APServerMessage::Retrieved),
        MessageKind::SetReply => Some(APServerMessage::SetReply),
        MessageKind::Unrecognized => Some(APServerMessage::Unrecognized { cmd }),
    }
}

/// Whether `messages` are the messages that the frame `j` carries, in
/// their order.
pub open spec fn spec_frame_matches(j: JsonView, messages: Seq<APServerMessage>) -> bool {
    &&& j is Arr
    &&& j->Arr_0.len() == messages.len()
    &&& forall|i: int|
        0 <= i < messages.len() ==> spec_message_matches(j->Arr_0[i], #[trigger] messages[i])
}

/// Reads a frame: an array of messages. One item that carries no message
/// spoils the frame.
pub fn read_frame(j: &Json) -> (r: Option<Vec<APServerMessage>>)
    ensures
        match r {
            Some(messages) => spec_frame_matches(j@, messages@),
            None => forall|messages: Seq<APServerMessage>| !spec_frame_matches(j@, messages),
        },
{
    match j.as_arr() {
        None => None,
        Some(items) => {
            let ghost all = j@->Arr_0;
            let mut messages: Vec<APServerMessage> = Vec::new();
            let mut i: usize = 0;
            while i < items.len()
                invariant
                    i <= items.len(),
                    j@ == JsonView::Arr(all),
                    all == spec_views(items@),
                    messages.len() == i,
                    forall|k: int|
                        0 <= k < i ==> spec_message_matches(all[k], #[trigger] messages[k]),
                decreases items.len() - i,
            {
                match read_message(&items[i]) {
                    Some(m) => {
                        messages.push(m);
                    },
                    None => {
                        assert forall|ms: Seq<APServerMessage>| !spec_frame_matches(j@, ms) by {
                            if ms.len() == all.len() {
                                assert(!spec_message_matches(j@->Arr_0[i as int], ms[i as int]));
                            }
                        }
                        return None;
                    },
                }
                i += 1;
            }
            Some(messages)
        },
    }
}

/// Whether `messages` are the messages that a frame with the text `text`
/// carries.
pub open spec fn spec_text_matches(text: Seq<char>, messages: Seq<APServerMessage>) -> bool {
    json_text_value(text) matches Some(j) && spec_frame_matches(j, messages)
}

/// Reads the text of a frame. `None` says that the frame is to be dropped.
pub fn decode_frame(text: &str) -> (r: Option<Vec<APServerMessage>>)
    ensures
        match r {
            Some(messages) => spec_text_matches(text@, messages@),
            None => forall|messages: Seq<APServerMessage>| !spec_text_matches(text@, messages),
        },
{
    match parse_json(text) {
        Some(j) => read_frame(&j),
        None => None,
    }
}

} // verus!
