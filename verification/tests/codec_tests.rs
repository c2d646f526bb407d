use elementipelago::archipelago::client_messages::APClientMessage;
use elementipelago::archipelago::json::{Json, Member};
use elementipelago::archipelago::server_messages::{
    decode_frame, read_frame, read_message, APConnectionError, APServerMessage, MessageKind,
    NetworkSlot, Permission, PrintJSONMessage, SlotKind,
};
use elementipelago::archipelago::shared_types::{APVersion, ClientStatus, HintStatus};

fn object(fields: Vec<(&str, Json)>) -> Json {
    Json::Obj(
        fields
            .into_iter()
            .map(|(name, value)| Member { name: name.to_string(), value })
            .collect(),
    )
}

fn text(s: &str) -> Json {
    Json::Str(s.to_string())
}

fn show(j: &Json) -> String {
    format!("{:?}", j)
}

const ROOM_INFO: &str = r#"[{"cmd":"RoomInfo","version":{"major":0,"minor":6,"build":5,"class":"Version"},"generator_version":{"major":0,"minor":6,"build":4,"class":"Version"},"tags":["AP"],"password":false,"permissions":{"release":7,"collect":6,"remaining":1},"hint_cost":10,"location_check_points":1,"games":["Elementipelago","Archipelago"],"datapackage_checksums":{"Archipelago":"aaa","Elementipelago":"bbb"},"seed_name":"12345","time":1700000000.5}]"#;

#[test]
fn room_info_frame_decodes_field_by_field() {
    let messages = decode_frame(ROOM_INFO).expect("a well-formed frame");
    assert_eq!(messages.len(), 1);
    match &messages[0] {
        APServerMessage::RoomInfo {
            version,
            generator_version,
            tags,
            password,
            permissions,
            hint_cost,
            location_check_points,
            games,
            datapackage_checksums,
            seed_name,
        } => {
            assert_eq!((version.major, version.minor, version.build), (0, 6, 5));
            assert_eq!(version.class, "Version");
            assert_eq!(generator_version.build, 4);
            assert_eq!(tags, &vec!["AP".to_string()]);
            assert!(!*password);
            assert_eq!(permissions.release, Permission::AutoEnabled);
            assert_eq!(permissions.collect, Permission::Auto);
            assert_eq!(permissions.remaining, Permission::Enabled);
            assert_eq!(*hint_cost, 10);
            assert_eq!(*location_check_points, 1);
            assert_eq!(games.len(), 2);
            assert_eq!(
                datapackage_checksums,
                &vec![
                    ("Archipelago".to_string(), "aaa".to_string()),
                    ("Elementipelago".to_string(), "bbb".to_string())
                ]
            );
            assert_eq!(seed_name, "12345");
        }
        other => panic!("not a RoomInfo: {:?}", other),
    }
}

#[test]
fn room_info_without_a_required_field_spoils_the_frame() {
    let without_seed = ROOM_INFO.replace(r#""seed_name":"12345","#, "");
    assert!(decode_frame(&without_seed).is_none());
    let without_time = ROOM_INFO.replace(r#","time":1700000000.5"#, "");
    assert!(decode_frame(&without_time).is_none());
    let bad_permission = ROOM_INFO.replace(r#""release":7"#, r#""release":3"#);
    assert!(decode_frame(&bad_permission).is_none());
}

#[test]
fn text_that_is_no_json_array_is_dropped() {
    assert!(decode_frame("").is_none());
    assert!(decode_frame("not json").is_none());
    assert!(decode_frame(r#"{"cmd":"Bounced"}"#).is_none());
    assert!(decode_frame(r#"[{"cmd":"Bounced"}] trailing"#).is_none());
    assert!(decode_frame(r#"[42]"#).is_none());
    assert!(decode_frame(r#"[{"no_cmd":true}]"#).is_none());
    assert!(decode_frame(r#"[{"cmd":7}]"#).is_none());
}

#[test]
fn empty_frame_decodes_to_no_messages() {
    assert_eq!(decode_frame("[]").expect("an empty array").len(), 0);
}

#[test]
fn unknown_tag_becomes_unrecognized_and_keeps_the_batch() {
    let messages = decode_frame(r#"[{"cmd":"Bounced"},{"cmd":"FutureThing","x":1},{"cmd":"SetReply"}]"#)
        .expect("a frame with an unknown tag");
    assert_eq!(messages.len(), 3);
    assert!(matches!(messages[0], APServerMessage::Bounced));
    match &messages[1] {
        APServerMessage::Unrecognized { cmd } => assert_eq!(cmd, "FutureThing"),
        other => panic!("not Unrecognized: {:?}", other),
    }
    assert!(matches!(messages[2], APServerMessage::SetReply));
}

#[test]
fn every_known_tag_has_its_kind() {
    assert_eq!(MessageKind::of("RoomInfo"), MessageKind::RoomInfo);
    assert_eq!(MessageKind::of("ConnectionRefused"), MessageKind::ConnectionRefused);
    assert_eq!(MessageKind::of("Connected"), MessageKind::Connected);
    assert_eq!(MessageKind::of("ReceivedItems"), MessageKind::ReceivedItems);
    assert_eq!(MessageKind::of("LocationInfo"), MessageKind::LocationInfo);
    assert_eq!(MessageKind::of("RoomUpdate"), MessageKind::RoomUpdate);
    assert_eq!(MessageKind::of("PrintJSON"), MessageKind::PrintJSON);
    assert_eq!(MessageKind::of("DataPackage"), MessageKind::DataPackage);
    assert_eq!(MessageKind::of("Bounced"), MessageKind::Bounced);
    assert_eq!(MessageKind::of("InvalidPacket"), MessageKind::InvalidPacket);
    assert_eq!(MessageKind::of("Retrieved"), MessageKind::Retrieved);
    assert_eq!(MessageKind::of("SetReply"), MessageKind::SetReply);
    assert_eq!(MessageKind::of("roominfo"), MessageKind::Unrecognized);
    assert_eq!(MessageKind::of(""), MessageKind::Unrecognized);
}

#[test]
fn connection_refused_names_each_reason() {
    let messages = decode_frame(
        r#"[{"cmd":"ConnectionRefused","errors":["InvalidSlot","InvalidGame","IncompatibleVersion","InvalidPassword","InvalidItemsHandling"]}]"#,
    )
    .expect("a refusal");
    match &messages[0] {
        APServerMessage::ConnectionRefused { errors } => assert_eq!(
            errors,
            &vec![
                APConnectionError::InvalidSlot,
                APConnectionError::InvalidGame,
                APConnectionError::IncompatibleVersion,
                APConnectionError::InvalidPassword,
                APConnectionError::InvalidItemsHandling,
            ]
        ),
        other => panic!("not a refusal: {:?}", other),
    }
    assert!(decode_frame(r#"[{"cmd":"ConnectionRefused","errors":["SomethingElse"]}]"#).is_none());
    assert_eq!(APConnectionError::named("InvalidSlot"), Some(APConnectionError::InvalidSlot));
    assert_eq!(APConnectionError::named("invalidslot"), None);
}

const CONNECTED: &str = r#"[{"cmd":"Connected","team":0,"slot":2,"players":[{"team":0,"slot":1,"alias":"A","name":"a"},{"team":0,"slot":2,"alias":"B","name":"b"}],"missing_locations":[3,4],"checked_locations":[1,5],"slot_data":{"element_amount":10,"filler_amount":2,"intermediate_amount":3,"graph_seed":99},"slot_info":{"1":{"type":"Player","name":"a","game":"Other"},"2":{"type":"Spectator","name":"b","game":"Elementipelago"},"3":{"type":"Group","name":"g","game":"Other","group_members":[1,2]}},"hint_points":7}]"#;

#[test]
fn connected_frame_decodes_field_by_field() {
    let messages = decode_frame(CONNECTED).expect("a confirmation");
    match &messages[0] {
        APServerMessage::Connected {
            team,
            slot,
            players,
            missing_locations,
            checked_locations,
            slot_data,
            slot_info,
            hint_points,
        } => {
            assert_eq!(*team, 0);
            assert_eq!(*slot, 2);
            assert_eq!(players.len(), 2);
            assert_eq!(players[1].alias, "B");
            assert_eq!(players[1].name, "b");
            assert_eq!(players[1].slot, 2);
            assert_eq!(missing_locations, &vec![3, 4]);
            assert_eq!(checked_locations, &vec![1, 5]);
            assert_eq!(slot_data.element_amount, 10);
            assert_eq!(slot_data.filler_amount, 2);
            assert_eq!(slot_data.intermediate_amount, 3);
            assert_eq!(slot_data.graph_seed, 99);
            assert_eq!(slot_info.len(), 3);
            assert_eq!(slot_info[0].0, 1);
            assert!(matches!(&slot_info[0].1, NetworkSlot::Player { game, .. } if game == "Other"));
            assert_eq!(slot_info[1].0, 2);
            assert!(matches!(&slot_info[1].1, NetworkSlot::Spectator { name, .. } if name == "b"));
            assert!(
                matches!(&slot_info[2].1, NetworkSlot::Group { group_members, .. } if group_members == &vec![1, 2])
            );
            assert_eq!(*hint_points, 7);
        }
        other => panic!("not Connected: {:?}", other),
    }
}

#[test]
fn slot_data_is_read_strictly() {
    let extra = CONNECTED.replace(r#""graph_seed":99"#, r#""graph_seed":99,"surprise":1"#);
    assert!(decode_frame(&extra).is_none());
    let missing = CONNECTED.replace(r#","graph_seed":99"#, "");
    assert!(decode_frame(&missing).is_none());
}

#[test]
fn slot_numbers_must_be_decimal() {
    let bad = CONNECTED.replace(r#""1":{"type":"Player""#, r#""one":{"type":"Player""#);
    assert!(decode_frame(&bad).is_none());
    let unknown_role = CONNECTED.replace(r#""type":"Spectator""#, r#""type":"Ghost""#);
    assert!(decode_frame(&unknown_role).is_none());
}

#[test]
fn slot_kind_is_named_or_numbered() {
    let numbered = CONNECTED
        .replace(r#""type":"Player""#, r#""type":1"#)
        .replace(r#""type":"Spectator""#, r#""type":0"#)
        .replace(r#""type":"Group""#, r#""type":2"#);
    let messages = decode_frame(&numbered).expect("numbered kinds");
    match &messages[0] {
        APServerMessage::Connected { slot_info, .. } => {
            assert!(matches!(&slot_info[0].1, NetworkSlot::Player { game, .. } if game == "Other"));
            assert!(matches!(&slot_info[1].1, NetworkSlot::Spectator { .. }));
            assert!(matches!(&slot_info[2].1, NetworkSlot::Group { .. }));
        }
        other => panic!("not Connected: {:?}", other),
    }
    assert!(decode_frame(&CONNECTED.replace(r#""type":"Player""#, r#""type":3"#)).is_none());
    assert!(decode_frame(&CONNECTED.replace(r#""type":"Player""#, r#""type":-1"#)).is_none());
    assert!(decode_frame(&CONNECTED.replace(r#""type":"Player""#, r#""type":1.0"#)).is_none());
    assert!(decode_frame(&CONNECTED.replace(r#""type":"Player","#, "")).is_none());
    assert_eq!(SlotKind::read(&text("Group")), Some(SlotKind::Group));
    assert_eq!(SlotKind::read(&Json::PosInt(2)), Some(SlotKind::Group));
    assert_eq!(SlotKind::read(&Json::NegInt(1)), Some(SlotKind::Player));
    assert_eq!(SlotKind::read(&text("group")), None);
    assert_eq!(SlotKind::read(&Json::Null), None);
}

#[test]
fn numbers_out_of_range_or_not_whole_are_refused() {
    assert!(decode_frame(r#"[{"cmd":"ReceivedItems","index":0,"items":[{"item":100,"location":1,"player":1,"flags":0}]}]"#).is_some());
    assert!(decode_frame(r#"[{"cmd":"ReceivedItems","index":0.5,"items":[]}]"#).is_none());
    assert!(decode_frame(r#"[{"cmd":"ReceivedItems","index":0,"items":[{"item":100,"location":1,"player":-1,"flags":0}]}]"#).is_none());
    assert!(decode_frame(r#"[{"cmd":"ReceivedItems","index":0,"items":[{"item":100,"location":1,"player":1,"flags":256}]}]"#).is_none());
    assert!(decode_frame(r#"[{"cmd":"ReceivedItems","index":18446744073709551615,"items":[]}]"#).is_none());
    let negative = decode_frame(r#"[{"cmd":"ReceivedItems","index":-3,"items":[{"item":-7,"location":-9223372036854775808,"player":0,"flags":255}]}]"#)
        .expect("negative numbers");
    match &negative[0] {
        APServerMessage::ReceivedItems { index, items } => {
            assert_eq!(*index, -3);
            assert_eq!(items[0].item, -7);
            assert_eq!(items[0].location, isize::MIN);
            assert_eq!(items[0].flags, 255);
        }
        other => panic!("not ReceivedItems: {:?}", other),
    }
}

#[test]
fn room_update_takes_what_is_there() {
    let messages = decode_frame(r#"[{"cmd":"RoomUpdate","hint_points":12,"checked_locations":[5,9],"seed_name":null,"time":3}]"#)
        .expect("an update");
    match &messages[0] {
        APServerMessage::RoomUpdate {
            version,
            tags,
            password,
            checked_locations,
            hint_points,
            seed_name,
            slot_info,
            ..
        } => {
            assert!(version.is_none());
            assert!(tags.is_none());
            assert!(password.is_none());
            assert!(seed_name.is_none());
            assert!(slot_info.is_none());
            assert_eq!(checked_locations, &Some(vec![5, 9]));
            assert_eq!(*hint_points, Some(12));
        }
        other => panic!("not RoomUpdate: {:?}", other),
    }
    let empty = decode_frame(r#"[{"cmd":"RoomUpdate"}]"#).expect("an update without fields");
    assert!(matches!(
        &empty[0],
        APServerMessage::RoomUpdate { checked_locations: None, hint_points: None, .. }
    ));
    assert!(decode_frame(r#"[{"cmd":"RoomUpdate","hint_points":"twelve"}]"#).is_none());
    assert!(decode_frame(r#"[{"cmd":"RoomUpdate","time":"noon"}]"#).is_none());
}

#[test]
fn data_package_is_read_strictly_with_groups_optional() {
    let messages = decode_frame(
        r#"[{"cmd":"DataPackage","data":{"games":{"Foo":{"checksum":"abc","item_name_to_id":{"Sword":101,"Shield":102},"location_name_to_id":{"Cave":1},"item_name_groups":{"Gear":["Sword","Shield"]}}}}}]"#,
    )
    .expect("a data package");
    match &messages[0] {
        APServerMessage::DataPackage { data } => {
            assert_eq!(data.games.len(), 1);
            assert_eq!(data.games[0].0, "Foo");
            let object = &data.games[0].1;
            assert_eq!(object.checksum, "abc");
            assert_eq!(
                object.item_name_to_id,
                vec![("Shield".to_string(), 102), ("Sword".to_string(), 101)]
            );
            assert_eq!(object.location_name_to_id, vec![("Cave".to_string(), 1)]);
            assert_eq!(
                object.item_name_groups,
                vec![("Gear".to_string(), vec!["Sword".to_string(), "Shield".to_string()])]
            );
            assert!(object.location_name_groups.is_empty());
        }
        other => panic!("not DataPackage: {:?}", other),
    }
    assert!(decode_frame(
        r#"[{"cmd":"DataPackage","data":{"games":{"Foo":{"checksum":"abc","item_name_to_id":{},"location_name_to_id":{},"version":3}}}}]"#
    )
    .is_none());
    assert!(decode_frame(
        r#"[{"cmd":"DataPackage","data":{"games":{"Foo":{"item_name_to_id":{},"location_name_to_id":{}}}}}]"#
    )
    .is_none());
}

#[test]
fn print_json_tells_join_tutorial_and_text_apart() {
    let messages = decode_frame(
        r#"[{"cmd":"PrintJSON","type":"Join","data":[{"text":"hi"}],"team":0,"slot":3,"tags":["AP"]},{"cmd":"PrintJSON","type":"Tutorial","data":[{"text":"a"},{"text":"b"}]},{"cmd":"PrintJSON","type":"Chat","data":[{"text":"c","color":"red"}]},{"cmd":"PrintJSON","data":[]}]"#,
    )
    .expect("texts");
    assert_eq!(messages.len(), 4);
    match &messages[0] {
        APServerMessage::PrintJSON(PrintJSONMessage::Join { data, team, slot, tags }) => {
            assert_eq!(data.len(), 1);
            assert_eq!(data[0].text, "hi");
            assert_eq!((*team, *slot), (0, 3));
            assert_eq!(tags, &vec!["AP".to_string()]);
        }
        other => panic!("not Join: {:?}", other),
    }
    match &messages[1] {
        APServerMessage::PrintJSON(PrintJSONMessage::Tutorial { data }) => {
            assert_eq!(data.len(), 2);
            assert_eq!(data[1].text, "b");
        }
        other => panic!("not Tutorial: {:?}", other),
    }
    assert!(
        matches!(&messages[2], APServerMessage::PrintJSON(PrintJSONMessage::Text { data }) if data[0].text == "c")
    );
    assert!(
        matches!(&messages[3], APServerMessage::PrintJSON(PrintJSONMessage::Text { data }) if data.is_empty())
    );
    assert!(decode_frame(r#"[{"cmd":"PrintJSON","type":"Tutorial"}]"#).is_none());
}

#[test]
fn invalid_packet_keeps_its_texts() {
    let messages = decode_frame(
        r#"[{"cmd":"InvalidPacket","type":"cmd","original_cmd":"Foo","text":"bad"},{"cmd":"InvalidPacket","type":"arguments","text":"worse"}]"#,
    )
    .expect("invalid packets");
    assert!(matches!(
        &messages[0],
        APServerMessage::InvalidPacket { typ, original_cmd: Some(cmd), text } if typ == "cmd" && cmd == "Foo" && text == "bad"
    ));
    assert!(matches!(
        &messages[1],
        APServerMessage::InvalidPacket { typ, original_cmd: None, text } if typ == "arguments" && text == "worse"
    ));
}

#[test]
fn the_last_of_two_fields_with_one_name_counts() {
    let j = object(vec![("cmd", text("Bounced")), ("cmd", text("SetReply"))]);
    assert!(matches!(read_message(&j), Some(APServerMessage::SetReply)));
    assert!(matches!(j.field("cmd"), Some(Json::Str(s)) if s == "SetReply"));
    assert!(j.field("other").is_none());
    assert!(Json::Null.field("cmd").is_none());
}

#[test]
fn read_frame_wants_an_array_of_messages() {
    assert!(read_frame(&Json::Null).is_none());
    assert!(read_frame(&object(vec![("cmd", text("Bounced"))])).is_none());
    let frame = Json::Arr(vec![object(vec![("cmd", text("Retrieved"))])]);
    let messages = read_frame(&frame).expect("one message");
    assert!(matches!(messages[0], APServerMessage::Retrieved));
}

#[test]
fn connect_message_has_its_fields_in_order() {
    let message = APClientMessage::Connect {
        password: "pw".to_string(),
        game: "Elementipelago".to_string(),
        name: "noa".to_string(),
        uuid: "u-1".to_string(),
        version: APVersion::default(),
        items_handling: 7,
        tags: vec!["AP".to_string()],
        slot_data: true,
    };
    let expected = object(vec![
        ("cmd", text("Connect")),
        ("password", text("pw")),
        ("game", text("Elementipelago")),
        ("name", text("noa")),
        ("uuid", text("u-1")),
        (
            "version",
            object(vec![
                ("major", Json::PosInt(0)),
                ("minor", Json::PosInt(6)),
                ("build", Json::PosInt(5)),
                ("class", text("Version")),
            ]),
        ),
        ("items_handling", Json::PosInt(7)),
        ("tags", Json::Arr(vec![text("AP")])),
        ("slot_data", Json::Bool(true)),
    ]);
    assert_eq!(show(&message.to_json()), show(&expected));
}

#[test]
fn every_client_message_carries_its_tag() {
    let cases: Vec<(APClientMessage, Json)> = vec![
        (
            APClientMessage::ConnectUpdate { items_handling: 7, tags: vec![] },
            object(vec![
                ("cmd", text("ConnectUpdate")),
                ("items_handling", Json::PosInt(7)),
                ("tags", Json::Arr(vec![])),
            ]),
        ),
        (APClientMessage::Sync, object(vec![("cmd", text("Sync"))])),
        (
            APClientMessage::LocationChecks { locations: vec![5, -2] },
            object(vec![
                ("cmd", text("LocationChecks")),
                ("locations", Json::Arr(vec![Json::PosInt(5), Json::NegInt(-2)])),
            ]),
        ),
        (
            APClientMessage::LocationScouts { locations: vec![1], create_as_hint: 2 },
            object(vec![
                ("cmd", text("LocationScouts")),
                ("locations", Json::Arr(vec![Json::PosInt(1)])),
                ("create_as_hint", Json::PosInt(2)),
            ]),
        ),
        (
            APClientMessage::CreateHints { locations: vec![], player: 3, status: HintStatus::Priority },
            object(vec![
                ("cmd", text("CreateHints")),
                ("locations", Json::Arr(vec![])),
                ("player", Json::PosInt(3)),
                ("status", Json::PosInt(30)),
            ]),
        ),
        (
            APClientMessage::UpdateHint { player: 1, location: 9, status: HintStatus::Found },
            object(vec![
                ("cmd", text("UpdateHint")),
                ("player", Json::PosInt(1)),
                ("location", Json::PosInt(9)),
                ("status", Json::PosInt(40)),
            ]),
        ),
        (
            APClientMessage::StatusUpdate { status: ClientStatus::Goal },
            object(vec![("cmd", text("StatusUpdate")), ("status", Json::PosInt(30))]),
        ),
        (
            APClientMessage::Say { text: "hello".to_string() },
            object(vec![("cmd", text("Say")), ("text", text("hello"))]),
        ),
        (
            APClientMessage::GetDataPackage { games: vec!["Foo".to_string()] },
            object(vec![("cmd", text("GetDataPackage")), ("games", Json::Arr(vec![text("Foo")]))]),
        ),
        (APClientMessage::Bounce, object(vec![("cmd", text("Bounce"))])),
        (APClientMessage::Get, object(vec![("cmd", text("Get"))])),
        (APClientMessage::SetData, object(vec![("cmd", text("Set"))])),
        (APClientMessage::SetNotify, object(vec![("cmd", text("SetNotify"))])),
    ];
    for (message, expected) in cases {
        assert_eq!(show(&message.to_json()), show(&expected));
    }
}

#[test]
fn status_codes_are_those_of_the_protocol() {
    assert_eq!(HintStatus::Unspecified.code(), 0);
    assert_eq!(HintStatus::NoPriority.code(), 10);
    assert_eq!(HintStatus::Avoid.code(), 20);
    assert_eq!(HintStatus::Priority.code(), 30);
    assert_eq!(HintStatus::Found.code(), 40);
    assert_eq!(ClientStatus::Unknown.code(), 0);
    assert_eq!(ClientStatus::Connected.code(), 5);
    assert_eq!(ClientStatus::Ready.code(), 10);
    assert_eq!(ClientStatus::Playing.code(), 20);
    assert_eq!(ClientStatus::Goal.code(), 30);
    assert_eq!(Permission::from_code(0), Some(Permission::Disabled));
    assert_eq!(Permission::from_code(1), Some(Permission::Enabled));
    assert_eq!(Permission::from_code(2), Some(Permission::Goal));
    assert_eq!(Permission::from_code(6), Some(Permission::Auto));
    assert_eq!(Permission::from_code(7), Some(Permission::AutoEnabled));
    assert_eq!(Permission::from_code(3), None);
    let version = APVersion::default();
    assert_eq!((version.major, version.minor, version.build), (0, 6, 5));
    assert_eq!(version.class, "Version");
}

#[test]
fn typed_readers_check_kind_and_range() {
    assert_eq!(Json::PosInt(5).as_isize(), Some(5));
    assert_eq!(Json::NegInt(-5).as_isize(), Some(-5));
    assert_eq!(Json::PosInt(u64::MAX).as_isize(), None);
    assert_eq!(Json::NegInt(-1).as_usize(), None);
    assert_eq!(Json::PosInt(255).as_u8(), Some(255));
    assert_eq!(Json::PosInt(256).as_u8(), None);
    assert_eq!(Json::Real("1.5".to_string()).as_isize(), None);
    assert!(Json::Real("1.5".to_string()).is_number());
    assert!(!Json::Null.is_number());
    assert_eq!(Json::Bool(true).as_bool(), Some(true));
    assert_eq!(text("x").as_bool(), None);
    assert_eq!(text("x").as_str(), Some(&"x".to_string()));
    assert_eq!(
        Json::Arr(vec![text("a"), text("b")]).as_str_list(),
        Some(vec!["a".to_string(), "b".to_string()])
    );
    assert_eq!(Json::Arr(vec![text("a"), Json::Null]).as_str_list(), None);
    assert_eq!(
        Json::Arr(vec![Json::PosInt(1), Json::NegInt(-1)]).as_isize_list(),
        Some(vec![1, -1])
    );
    assert_eq!(Json::Arr(vec![Json::PosInt(u64::MAX)]).as_isize_list(), None);
    assert!(Json::Null.as_arr().is_none());
    assert!(Json::Null.as_obj().is_none());
}

#[test]
fn numbers_keep_their_kind_through_text() {
    let j = Json::from_text("[0, 7, -7, 1.5, -0.0, 1e300, 18446744073709551615, -9223372036854775808, 18446744073709551616, 1E2]")
        .expect("an array of numbers");
    assert_eq!(
        show(&j),
        show(&Json::Arr(vec![
            Json::PosInt(0),
            Json::PosInt(7),
            Json::NegInt(-7),
            Json::Real("1.5".to_string()),
            Json::Real("-0.0".to_string()),
            Json::Real("1e+300".to_string()),
            Json::PosInt(u64::MAX),
            Json::NegInt(i64::MIN),
            Json::Real("1.8446744073709552e+19".to_string()),
            Json::Real("100.0".to_string()),
        ]))
    );
    assert_eq!(
        j.to_text(),
        "[0,7,-7,1.5,-0.0,1e+300,18446744073709551615,-9223372036854775808,1.8446744073709552e+19,100.0]"
    );
}

#[test]
fn values_go_to_compact_text_and_back() {
    let j = object(vec![
        ("b", Json::Arr(vec![Json::Null, Json::Bool(false), text("q\"uote\n")])),
        ("a", object(vec![])),
        ("b", Json::NegInt(5)),
    ]);
    assert_eq!(j.to_text(), r#"{"a":{},"b":5}"#);
    let nested = Json::Arr(vec![object(vec![("k", Json::Arr(vec![text("é")]))])]);
    let printed = nested.to_text();
    assert_eq!(printed, r#"[{"k":["é"]}]"#);
    assert_eq!(show(&Json::from_text(&printed).expect("it reads back")), show(&nested));
    assert_eq!(Json::Real("not a number".to_string()).to_text(), "null");
    assert_eq!(Json::Real("2.50".to_string()).to_text(), "2.5");
    assert!(Json::from_text("").is_none());
    assert!(Json::from_text("{} {}").is_none());
    assert!(Json::from_text("{\"a\":1,}").is_none());
    let sorted = Json::from_text(r#"{"b":1,"a":2,"b":3}"#).expect("an object");
    assert_eq!(
        show(&sorted),
        show(&object(vec![("a", Json::PosInt(2)), ("b", Json::PosInt(3))]))
    );
}
