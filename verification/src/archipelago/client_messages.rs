//! Messages that the client sends, and their form on the wire.

use vstd::prelude::*;
use super::json::{Json, JsonView, Member};
use super::shared_types::{APVersion, ClientStatus, HintStatus, LocationID, PlayerID};

verus! {

#[derive(Debug)]
#[allow(inconsistent_fields)]
pub enum APClientMessage {
    Connect {
        password: String,
        game: String,
        name: String,
        uuid: String,
        version: APVersion,
        items_handling: u8,
        tags: Vec<String>,
        slot_data: bool,
    },
    ConnectUpdate { items_handling: u8, tags: Vec<String> },
    Sync,
    LocationChecks { locations: Vec<LocationID> },
    LocationScouts { locations: Vec<LocationID>, create_as_hint: isize },
    CreateHints { locations: Vec<LocationID>, player: PlayerID, status: HintStatus },
    UpdateHint { player: PlayerID, location: LocationID, status: HintStatus },
    StatusUpdate { status: ClientStatus },
    Say { text: String },
    GetDataPackage { games: Vec<String> },
    Bounce,
    Get,
    /// The message whose tag is `Set`.
    SetData,
    SetNotify,
}

/// The array of the strings `texts`.
pub open spec fn spec_str_array(texts: Seq<Seq<char>>) -> JsonView {
    JsonView::Arr(Seq::new(texts.len(), |i: int| JsonView::Str(texts[i])))
}

/// The array of the numbers `numbers`.
pub open spec fn spec_int_array(numbers: Seq<isize>) -> JsonView {
    JsonView::Arr(Seq::new(numbers.len(), |i: int| JsonView::Int(numbers[i] as int)))
}

/// An object that holds the tag `cmd` and after it `fields`.
pub open spec fn spec_tagged(cmd: Seq<char>, fields: Seq<(Seq<char>, JsonView)>) -> JsonView {
    JsonView::Obj(seq![("cmd"@, JsonView::Str(cmd))] + fields)
}

pub open spec fn spec_version_json(parts: (int, int, int, Seq<char>)) -> JsonView {
    JsonView::Obj(
        seq![
            ("major"@, JsonView::Int(parts.0)),
            ("minor"@, JsonView::Int(parts.1)),
            ("build"@, JsonView::Int(parts.2)),
            ("class"@, JsonView::Str(parts.3)),
        ],
    )
}

/// The login message.
pub open spec fn spec_connect_json(
    password: Seq<char>,
    game: Seq<char>,
    name: Seq<char>,
    uuid: Seq<char>,
    version: (int, int, int, Seq<char>),
    items_handling: int,
    tags: Seq<Seq<char>>,
    slot_data: bool,
) -> JsonView {
    spec_tagged(
        "Connect"@,
        seq![
            ("password"@, JsonView::Str(password)),
            ("game"@, JsonView::Str(game)),
            ("name"@, JsonView::Str(name)),
            ("uuid"@, JsonView::Str(uuid)),
            ("version"@, spec_version_json(version)),
            ("items_handling"@, JsonView::Int(items_handling)),
            ("tags"@, spec_str_array(tags)),
            ("slot_data"@, JsonView::Bool(slot_data)),
        ],
    )
}

/// The request for the catalogs of `games`.
pub open spec fn spec_get_data_package_json(games: Seq<Seq<char>>) -> JsonView {
    spec_tagged("GetDataPackage"@, seq![("games"@, spec_str_array(games))])
}

/// The report that `locations` were checked.
pub open spec fn spec_location_checks_json(locations: Seq<isize>) -> JsonView {
    spec_tagged("LocationChecks"@, seq![("locations"@, spec_int_array(locations))])
}

impl APClientMessage {
    /// The object that stands for this message on the wire: its tag under
    /// `cmd`, then its fields in the order of their declaration.
    pub open spec fn spec_json(self) -> JsonView {
        match self {
            APClientMessage::Connect {
                password,
                game,
                name,
                uuid,
                version,
                items_handling,
                tags,
                slot_data,
            } => spec_connect_json(
                password@,
                game@,
                name@,
                uuid@,
                version.spec_parts(),
                items_handling as int,
                tags.deep_view(),
                slot_data,
            ),
            APClientMessage::ConnectUpdate { items_handling, tags } => spec_tagged(
                "ConnectUpdate"@,
                seq![
                    ("items_handling"@, JsonView::Int(items_handling as int)),
                    ("tags"@, spec_str_array(tags.deep_view())),
                ],
            ),
            APClientMessage::Sync => spec_tagged("Sync"@, seq![]),
            APClientMessage::LocationChecks { locations } => spec_location_checks_json(locations@),
            APClientMessage::LocationScouts { locations, create_as_hint } => spec_tagged(
                "LocationScouts"@,
                seq![
                    ("locations"@, spec_int_array(locations@)),
                    ("create_as_hint"@, JsonView::Int(create_as_hint as int)),
                ],
            ),
            APClientMessage::CreateHints { locations, player, status } => spec_tagged(
                "CreateHints"@,
                seq![
                    ("locations"@, spec_int_array(locations@)),
                    ("player"@, JsonView::Int(player as int)),
                    ("status"@, JsonView::Int(status.spec_code())),
                ],
            ),
            APClientMessage::UpdateHint { player, location, status } => spec_tagged(
                "UpdateHint"@,
                seq![
                    ("player"@, JsonView::Int(player as int)),
                    ("location"@, JsonView::Int(location as int)),
                    ("status"@, JsonView::Int(status.spec_code())),
                ],
            ),
            APClientMessage::StatusUpdate { status } => spec_tagged(
                "StatusUpdate"@,
                seq![("status"@, JsonView::Int(status.spec_code()))],
            ),
            APClientMessage::Say { text } => spec_tagged(
                "Say"@,
                seq![("text"@, JsonView::Str(text@))],
            ),
            APClientMessage::GetDataPackage { games } => spec_get_data_package_json(
                games.deep_view(),
            ),
            APClientMessage::Bounce => spec_tagged("Bounce"@, seq![]),
            APClientMessage::Get => spec_tagged("Get"@, seq![]),
            APClientMessage::SetData => spec_tagged("Set"@, seq![]),
            APClientMessage::SetNotify => spec_tagged("SetNotify"@, seq![]),
        }
    }

    /// Builds the wire form of this message.
    pub fn to_json(&self) -> (j: Json)
        ensures
            j@ == self.spec_json(),
    {
        let mut fields: Vec<Member> = Vec::new();
        match self {
            APClientMessage::Connect {
                password,
                game,
                name,
                uuid,
                version,
                items_handling,
                tags,
                slot_data,
            } => {
                fields.push(member("cmd", Json::Str("Connect".to_string())));
                fields.push(member("password", Json::Str(password.clone())));
                fields.push(member("game", Json::Str(game.clone())));
                fields.push(member("name", Json::Str(name.clone())));
                fields.push(member("uuid", Json::Str(uuid.clone())));
                fields.push(member("version", version_json(version)));
                fields.push(member("items_handling", Json::PosInt(*items_handling as u64)));
                fields.push(member("tags", str_array(tags)));
                fields.push(member("slot_data", Json::Bool(*slot_data)));
            },
            APClientMessage::ConnectUpdate { items_handling, tags } => {
                fields.push(member("cmd", Json::Str("ConnectUpdate".to_string())));
                fields.push(member("items_handling", Json::PosInt(*items_handling as u64)));
                fields.push(member("tags", str_array(tags)));
            },
            APClientMessage::Sync => {
                fields.push(member("cmd", Json::Str("Sync".to_string())));
            },
            APClientMessage::LocationChecks { locations } => {
                fields.push(member("cmd", Json::Str("LocationChecks".to_string())));
                fields.push(member("locations", int_array(locations)));
            },
            APClientMessage::LocationScouts { locations, create_as_hint } => {
                fields.push(member("cmd", Json::Str("LocationScouts".to_string())));
                fields.push(member("locations", int_array(locations)));
                fields.push(member("create_as_hint", json_isize(*create_as_hint)));
            },
            APClientMessage::CreateHints { locations, player, status } => {
                fields.push(member("cmd", Json::Str("CreateHints".to_string())));
                fields.push(member("locations", int_array(locations)));
                fields.push(member("player", Json::PosInt(*player as u64)));
                fields.push(member("status", Json::PosInt(status.code() as u64)));
            },
            APClientMessage::UpdateHint { player, location, status } => {
                fields.push(member("cmd", Json::Str("UpdateHint".to_string())));
                fields.push(member("player", Json::PosInt(*player as u64)));
                fields.push(member("location", json_isize(*location)));
                fields.push(member("status", Json::PosInt(status.code() as u64)));
            },
            APClientMessage::StatusUpdate { status } => {
                fields.push(member("cmd", Json::Str("StatusUpdate".to_string())));
                fields.push(member("status", Json::PosInt(status.code() as u64)));
            },
            APClientMessage::Say { text } => {
                fields.push(member("cmd", Json::Str("Say".to_string())));
                fields.push(member("text", Json::Str(text.clone())));
            },
            APClientMessage::GetDataPackage { games } => {
                fields.push(member("cmd", Json::Str("GetDataPackage".to_string())));
                fields.push(member("games", str_array(games)));
            },
            APClientMessage::Bounce => {
                fields.push(member("cmd", Json::Str("Bounce".to_string())));
            },
            APClientMessage::Get => {
                fields.push(member("cmd", Json::Str("Get".to_string())));
            },
            APClientMessage::SetData => {
                fields.push(member("cmd", Json::Str("Set".to_string())));
            },
            APClientMessage::SetNotify => {
                fields.push(member("cmd", Json::Str("SetNotify".to_string())));
            },
        }
        let j = Json::Obj(fields);
        assert(j@->Obj_0 =~= self.spec_json()->Obj_0);
        j
    }
}

/// An entry of an object.
pub fn member(name: &str, value: Json) -> (m: Member)
    ensures
        m.name@ == name@,
        m.value == value,
        m.value@ == value@,
{
    Member { name: name.to_string(), value }
}

/// The number `x` as a JSON value.
pub fn json_isize(x: isize) -> (j: Json)
    ensures
        j@ == JsonView::Int(x as int),
{
    if x >= 0 {
        Json::PosInt(x as u64)
    } else {
        Json::NegInt(x as i64)
    }
}

/// The array of the strings `texts`.
pub fn str_array(texts: &Vec<String>) -> (j: Json)
    ensures
        j@ == spec_str_array(texts.deep_view()),
{
    let mut items: Vec<Json> = Vec::new();
    let mut i: usize = 0;
    while i < texts.len()
        invariant
            i <= texts.len(),
            items.len() == i,
            forall|k: int| 0 <= k < i ==> (#[trigger] items[k])@ == JsonView::Str(texts[k]@),
        decreases texts.len() - i,
    {
        items.push(Json::Str(texts[i].clone()));
        i += 1;
    }
    let j = Json::Arr(items);
    assert(j@->Arr_0 =~= spec_str_array(texts.deep_view())->Arr_0);
    j
}

/// The array of the numbers `numbers`.
pub fn int_array(numbers: &Vec<isize>) -> (j: Json)
    ensures
        j@ == spec_int_array(numbers@),
{
    let mut items: Vec<Json> = Vec::new();
    let mut i: usize = 0;
    while i < numbers.len()
        invariant
            i <= numbers.len(),
            items.len() == i,
            forall|k: int|
                0 <= k < i ==> (#[trigger] items[k])@ == JsonView::Int(numbers[k] as int),
        decreases numbers.len() - i,
    {
        items.push(json_isize(numbers[i]));
        i += 1;
    }
    let j = Json::Arr(items);
    assert(j@->Arr_0 =~= spec_int_array(numbers@)->Arr_0);
    j
}

/// The wire form of a version.
pub fn version_json(version: &APVersion) -> (j: Json)
    ensures
        j@ == spec_version_json(version.spec_parts()),
{
    let mut fields: Vec<Member> = Vec::new();
    fields.push(member("major", Json::PosInt(version.major as u64)));
    fields.push(member("minor", Json::PosInt(version.minor as u64)));
    fields.push(member("build", Json::PosInt(version.build as u64)));
    fields.push(member("class", Json::Str(version.class.clone())));
    let j = Json::Obj(fields);
    assert(j@->Obj_0 =~= spec_version_json(version.spec_parts())->Obj_0);
    j
}

/// The array of the wire forms of `messages`, which is one frame.
pub open spec fn spec_frame_json(messages: Seq<APClientMessage>) -> JsonView {
    JsonView::Arr(Seq::new(messages.len(), |i: int| messages[i].spec_json()))
}

/// Builds the frame that carries `messages`, in their order.
pub fn frame_json(messages: &Vec<APClientMessage>) -> (j: Json)
    ensures
        j@ == spec_frame_json(messages@),
{
    let mut items: Vec<Json> = Vec::new();
    let mut i: usize = 0;
    while i < messages.len()
        invariant
            i <= messages.len(),
            items.len() == i,
            forall|k: int| 0 <= k < i ==> (#[trigger] items[k])@ == messages[k].spec_json(),
        decreases messages.len() - i,
    {
        items.push(messages[i].to_json());
        i += 1;
    }
    let j = Json::Arr(items);
    assert(j@->Arr_0 =~= spec_frame_json(messages@)->Arr_0);
    j
}

} // verus!
