use elementipelago::archipelago::datapackage::{
    cache_entry_json, clone_name_table, decode_id_table, decode_name_table, id_table_json,
    load_datapackage, name_table_json, reverse_table, save_datapackage, CacheFile,
    DataPackageSave, MyDataPackage,
};
use elementipelago::archipelago::json::{Json, Member};
use elementipelago::archipelago::server_messages::DataPackageObject;

fn foo() -> MyDataPackage {
    MyDataPackage {
        checksum: "abc".to_string(),
        location_name_to_id: vec![("Cave".to_string(), 1), ("Hill \"top\"".to_string(), -2)],
        location_id_to_name: vec![(-2, "Hill \"top\"".to_string()), (1, "Cave".to_string())],
        item_name_to_id: vec![("Sword".to_string(), 101), ("Ünïcödé".to_string(), isize::MAX)],
        item_id_to_name: vec![(101, "Sword".to_string()), (isize::MAX, "Ünïcödé".to_string())],
    }
}

#[test]
fn saved_catalog_loads_back_the_same() {
    let CacheFile { path, content } = save_datapackage("Foo", &foo());
    assert_eq!(path, vec!["elementipelago", "datapackages", "Foo.json"]);
    let DataPackageSave { game, datapackage } = load_datapackage(&content).expect("it loads");
    assert_eq!(game, "Foo");
    assert_eq!(datapackage.checksum, "abc");
    assert_eq!(datapackage.location_name_to_id, foo().location_name_to_id);
    assert_eq!(datapackage.location_id_to_name, foo().location_id_to_name);
    assert_eq!(datapackage.item_name_to_id, foo().item_name_to_id);
    assert_eq!(datapackage.item_id_to_name, foo().item_id_to_name);
}

#[test]
fn cache_file_has_the_documented_layout() {
    let content = save_datapackage("Foo", &foo()).content;
    let value: serde_json::Value = serde_json::from_str(&content).expect("JSON");
    let top = value.as_object().expect("an object");
    assert_eq!(top.len(), 2);
    assert_eq!(top["game"], "Foo");
    let package = top["datapackage"].as_object().expect("an object");
    let mut names: Vec<&str> = package.keys().map(String::as_str).collect();
    names.sort();
    assert_eq!(
        names,
        vec![
            "checksum",
            "item_id_to_name",
            "item_name_to_id",
            "location_id_to_name",
            "location_name_to_id"
        ]
    );
    assert_eq!(package["location_id_to_name"]["-2"], "Hill \"top\"");
    assert_eq!(package["item_name_to_id"]["Ünïcödé"], isize::MAX as i64);
}

#[test]
fn empty_catalog_saves_to_exact_text() {
    let empty = MyDataPackage {
        checksum: "c".to_string(),
        location_name_to_id: vec![],
        location_id_to_name: vec![],
        item_name_to_id: vec![],
        item_id_to_name: vec![],
    };
    assert_eq!(
        save_datapackage("G", &empty).content,
        r#"{"datapackage":{"checksum":"c","item_id_to_name":{},"item_name_to_id":{},"location_id_to_name":{},"location_name_to_id":{}},"game":"G"}"#
    );
}

#[test]
fn load_refuses_what_is_no_cache_entry() {
    assert!(load_datapackage("").is_none());
    assert!(load_datapackage("[]").is_none());
    assert!(load_datapackage(r#"{"game":"G"}"#).is_none());
    assert!(load_datapackage(r#"{"game":7,"datapackage":{}}"#).is_none());
    let good = r#"{"game":"G","datapackage":{"checksum":"c","location_name_to_id":{},"location_id_to_name":{},"item_name_to_id":{},"item_id_to_name":{}},"extra":1}"#;
    assert!(load_datapackage(good).is_some());
    assert!(load_datapackage(&good.replace(r#""checksum":"c","#, "")).is_none());
    assert!(load_datapackage(&good.replace(r#""item_id_to_name":{}"#, r#""item_id_to_name":{"x":"y"}"#)).is_none());
    assert!(load_datapackage(&good.replace(r#""item_id_to_name":{}"#, r#""item_id_to_name":{"1":2}"#)).is_none());
    assert!(load_datapackage(&good.replace(r#""item_name_to_id":{}"#, r#""item_name_to_id":{"a":"b"}"#)).is_none());
    assert!(load_datapackage(&good.replace(r#""item_name_to_id":{}"#, r#""item_name_to_id":{"a":1.5}"#)).is_none());
}

#[test]
fn catalog_of_an_object_reverses_its_tables() {
    let object = DataPackageObject {
        checksum: "abc".to_string(),
        item_name_groups: vec![("All".to_string(), vec!["Sword".to_string()])],
        item_name_to_id: vec![("Sword".to_string(), 101), ("Blade".to_string(), 101)],
        location_name_groups: vec![],
        location_name_to_id: vec![("Cave".to_string(), 1)],
    };
    let catalog = MyDataPackage::from_object(&object);
    assert_eq!(catalog.checksum, "abc");
    assert_eq!(catalog.item_name_to_id, object.item_name_to_id);
    assert_eq!(
        catalog.item_id_to_name,
        vec![(101, "Sword".to_string()), (101, "Blade".to_string())]
    );
    assert_eq!(catalog.location_name_to_id, object.location_name_to_id);
    assert_eq!(catalog.location_id_to_name, vec![(1, "Cave".to_string())]);
}

#[test]
fn tables_go_to_objects_and_back() {
    let names = vec![("a".to_string(), 1), ("b".to_string(), -1)];
    assert_eq!(clone_name_table(&names), names);
    assert_eq!(reverse_table(&names), vec![(1, "a".to_string()), (-1, "b".to_string())]);
    assert_eq!(
        format!("{:?}", name_table_json(&names)),
        format!(
            "{:?}",
            Json::Obj(vec![
                Member { name: "a".to_string(), value: Json::PosInt(1) },
                Member { name: "b".to_string(), value: Json::NegInt(-1) },
            ])
        )
    );
    assert_eq!(decode_name_table(&name_table_json(&names)), Some(names.clone()));
    let ids = reverse_table(&names);
    assert_eq!(
        format!("{:?}", id_table_json(&ids)),
        format!(
            "{:?}",
            Json::Obj(vec![
                Member { name: "1".to_string(), value: Json::Str("a".to_string()) },
                Member { name: "-1".to_string(), value: Json::Str("b".to_string()) },
            ])
        )
    );
    assert_eq!(decode_id_table(&id_table_json(&ids)), Some(ids));
    assert_eq!(decode_name_table(&Json::Null), None);
    assert_eq!(decode_id_table(&Json::Arr(vec![])), None);
}

#[test]
fn cache_entry_value_names_game_then_catalog() {
    let j = cache_entry_json("Foo", &foo());
    match &j {
        Json::Obj(fields) => {
            assert_eq!(fields.len(), 2);
            assert_eq!(fields[0].name, "game");
            assert!(matches!(&fields[0].value, Json::Str(s) if s == "Foo"));
            assert_eq!(fields[1].name, "datapackage");
            assert_eq!(format!("{:?}", fields[1].value), format!("{:?}", foo().to_json()));
        }
        other => panic!("not an object: {:?}", other),
    }
    assert_eq!(
        MyDataPackage::from_json(&foo().to_json()).expect("it reads back").checksum,
        "abc"
    );
    assert!(DataPackageSave::from_json(&j).is_some());
    assert!(DataPackageSave::from_json(&foo().to_json()).is_none());
}
