use snapd::api::alias::{
    AliasCommand, AliasInfo, AliasStatus, Aliases, GetAliases, SnapAlias,
};
use snapd::api::assertions::{SnapDeclaration, SnapDeclarationError};
use snapd::api::command::SnapCommand;
use snapd::api::convenience::SnapNameFromId;
use snapd::api::find::{FindError, FindResult, FindSnapById, FindSnapByName};
use snapd::api::json::{JsonValue, ParseError};
use snapd::api::{decode_envelope, parse_answer, FromJson, SnapdType};
use snapd::api::query::encode_query_value;
use snapd::client::build_request;

fn to_model(v: &serde_json::Value) -> JsonValue {
    match v {
        serde_json::Value::Null => JsonValue::Null,
        serde_json::Value::Bool(b) => JsonValue::Bool(*b),
        serde_json::Value::Number(n) => match n.as_i64() {
            Some(i) => JsonValue::Integer(i),
            None => JsonValue::OtherNumber,
        },
        serde_json::Value::String(s) => JsonValue::Str(s.clone()),
        serde_json::Value::Array(a) => JsonValue::Array(a.iter().map(to_model).collect()),
        serde_json::Value::Object(m) => {
            JsonValue::Object(m.iter().map(|(k, v)| (k.clone(), to_model(v))).collect())
        }
    }
}

fn read(text: &str) -> JsonValue {
    to_model(&serde_json::from_str(text).expect("test text is JSON"))
}

fn write(v: &JsonValue) -> String {
    match v {
        JsonValue::Null => "null".to_string(),
        JsonValue::Bool(b) => b.to_string(),
        JsonValue::Integer(i) => i.to_string(),
        JsonValue::OtherNumber => panic!("no such number in these tests"),
        JsonValue::Str(s) => serde_json::to_string(s).unwrap(),
        JsonValue::Array(a) => {
            format!("[{}]", a.iter().map(write).collect::<Vec<_>>().join(","))
        }
        JsonValue::Object(ms) => format!(
            "{{{}}}",
            ms.iter()
                .map(|(k, v)| format!("{}:{}", serde_json::to_string(k).unwrap(), write(v)))
                .collect::<Vec<_>>()
                .join(",")
        ),
    }
}

fn expected_aliases() -> Aliases<'static> {
    Aliases(vec![(
        "snap".into(),
        vec![
            (
                SnapAlias::from("alias1"),
                AliasInfo {
                    command: SnapCommand::from_convertible("snap", "app"),
                    status: AliasStatus::Auto { app_name: "app".into() },
                },
            ),
            (
                SnapAlias::from("alias2"),
                AliasInfo {
                    command: SnapCommand::from_raw("foo"),
                    status: AliasStatus::Manual { app_name: "app1".into() },
                },
            ),
        ],
    )])
}

#[test]
fn deserialize_info() {
    let json = r#"
    {
        "snap":
        {
            "alias1":
            {
                "command": "snap.app",
                "status": "auto",
                "auto": "app"
            },
            "alias2":
            {
                "command": "foo",
                "status": "manual",
                "manual": "app1"
            }
        }
    }
    "#;

    assert_eq!(
        expected_aliases(),
        Aliases::from_json(&read(json)).expect("could not decode alias response json")
    )
}

#[test]
fn envelope_round_trip() {
    let body = r#"{"type":"sync","status-code":200,"result":{"snap":{"alias1":{"command":"snap.app","status":"auto","auto":"app"}}}}"#;
    let aliases: Aliases = parse_answer(&read(body)).unwrap();
    let (snap, entries) = &aliases.0[0];
    assert_eq!(aliases.0.len(), 1);
    assert_eq!(snap.as_str(), "snap");
    assert_eq!(entries.len(), 1);
    assert_eq!(entries[0].0.as_str(), "alias1");
    assert_eq!(entries[0].1.command, SnapCommand::from_convertible("snap", "app"));
    assert_eq!(entries[0].1.status, AliasStatus::Auto { app_name: "app".into() });
}

#[test]
fn envelope_fields_are_read() {
    let doc = read(r#"{"type":"async","status-code":202,"result":null}"#);
    let env = decode_envelope(&doc).unwrap();
    assert_eq!(env.typ, SnapdType::Async);
    assert_eq!(env.status_code, 202);
    assert_eq!(*env.result, JsonValue::Null);
}

#[test]
fn envelope_with_error_status_is_reported() {
    let doc = read(r#"{"type":"error","status-code":404,"result":{"message":"not found"}}"#);
    assert_eq!(parse_answer::<Aliases>(&doc).unwrap_err(), ParseError::Shape);
    let doc = read(r#"{"type":"sync","status-code":404,"result":{"message":"not found"}}"#);
    assert_eq!(parse_answer::<Aliases>(&doc).unwrap_err(), ParseError::Status(404));
}

#[test]
fn envelope_shape_errors() {
    for body in [
        r#"{"status-code":200,"result":{}}"#,
        r#"{"type":"sync","result":{}}"#,
        r#"{"type":"sync","status-code":200}"#,
        r#"{"type":"sync","status-code":1000,"result":{}}"#,
        r#"{"type":"sync","status-code":"200","result":{}}"#,
        r#"[1,2]"#,
    ] {
        assert_eq!(parse_answer::<Aliases>(&read(body)).unwrap_err(), ParseError::Shape, "{}", body);
    }
}

#[test]
fn alias_with_unknown_status_does_not_read() {
    let doc = read(r#"{"snap":{"a":{"command":"x.y","status":"odd"}}}"#);
    assert_eq!(Aliases::from_json(&doc).unwrap_err(), ParseError::Shape);
    let doc = read(r#"{"snap":{"a":{"command":"x.y","status":"disabled"}}}"#);
    let aliases = Aliases::from_json(&doc).unwrap();
    assert_eq!(aliases.0[0].1[0].1.status, AliasStatus::Disabled);
}

#[test]
fn serialize_command_no_app() {
    let command = AliasCommand::Alias { snap: "steam".into(), alias: "games".into(), app: None };

    let expected = r#"{"action":"alias","snap":"steam","alias":"games"}"#;

    assert_eq!(write(&command.to_json()), expected);
}

#[test]
fn serialize_command_app() {
    let command = AliasCommand::Alias {
        snap: "steam".into(),
        alias: "vulkan".into(),
        app: Some("vkinfo".into()),
    };

    let expected = r#"{"action":"alias","snap":"steam","alias":"vulkan","app":"vkinfo"}"#;

    assert_eq!(write(&command.to_json()), expected);
}

#[test]
fn unalias_without_snap() {
    let command = AliasCommand::Unalias { snap: None, alias: "games".into(), app: None };
    assert_eq!(write(&command.to_json()), r#"{"action":"unalias","alias":"games"}"#);
}

const FOUND: &str = r#"{"type":"sync","status-code":200,"result":[{"id":"3Iwi803Tk3KQwyD6jFiAJdlq8MLgBIoD","title":"ColorGrab","summary":"s","description":"d","name":"colorgrab","developer":"dev","extra":1,"categories":[{"name":"art-and-design","featured":false},{"name":"utilities","featured":true}]}]}"#;

#[test]
fn categories_of_found_snap() {
    let found: FindResult = parse_answer(&read(FOUND)).unwrap();
    assert_eq!(found.info[0].name.as_str(), "colorgrab");
    let categories = found.into_categories().unwrap();
    let names: Vec<(&str, bool)> =
        categories.iter().map(|c| (c.name.as_str(), c.featured)).collect();
    assert_eq!(names, vec![("art-and-design", false), ("utilities", true)]);
}

#[test]
fn nothing_found() {
    let found: FindResult = parse_answer(&read(r#"{"type":"sync","status-code":200,"result":[]}"#)).unwrap();
    assert_eq!(found.into_categories().unwrap_err(), FindError::NoSnapsFound);
}

#[test]
fn category_without_flag_does_not_read() {
    let doc = read(r#"[{"id":"i","title":"t","summary":"s","description":"d","name":"n","developer":"v","categories":[{"name":"x"}]}]"#);
    assert_eq!(FindResult::from_json(&doc).unwrap_err(), ParseError::Shape);
}

#[test]
fn request_for_aliases() {
    let request = build_request(&GetAliases).unwrap();
    assert_eq!(request.uri, "http://localhost/v2/aliases");
    assert_eq!(
        request.headers,
        vec![
            ("host".to_string(), "localhost".to_string()),
            ("content-type".to_string(), "application/json".to_string())
        ]
    );
}

#[test]
fn request_urls_of_lookups() {
    let by_name = FindSnapByName { name: "colorgrab".into() };
    assert_eq!(build_request(&by_name).unwrap().uri, "http://localhost/v2/find?name=colorgrab");
    let by_id = FindSnapById { id: "3Iwi803Tk3KQwyD6jFiAJdlq8MLgBIoD".into() };
    assert_eq!(
        build_request(&by_id).unwrap().uri,
        "http://localhost/v2/find?common-id=3Iwi803Tk3KQwyD6jFiAJdlq8MLgBIoD"
    );
    let name = SnapNameFromId { name: "NeoQngJVBf2wKC48bxnF2xqmfEFGdVnx".into() };
    assert_eq!(
        build_request(&name).unwrap().uri,
        "http://localhost/v2/assertions/snap-declaration?series=16&remote=true&snap-id=NeoQngJVBf2wKC48bxnF2xqmfEFGdVnx"
    );
}

#[test]
fn request_url_is_encoded() {
    let by_name = FindSnapByName { name: "a b".into() };
    assert_eq!(build_request(&by_name).unwrap().uri, "http://localhost/v2/find?name=a%20b");
    let by_name = FindSnapByName { name: "a&b=c#d+e;f".into() };
    assert_eq!(
        build_request(&by_name).unwrap().uri,
        "http://localhost/v2/find?name=a%26b%3Dc%23d%2Be%3Bf"
    );
    let by_name = FindSnapByName { name: "caf\u{e9}-1.2_x~".into() };
    assert_eq!(
        build_request(&by_name).unwrap().uri,
        "http://localhost/v2/find?name=caf%C3%A9-1.2_x~"
    );
}

#[test]
fn query_value_encoding() {
    assert_eq!(encode_query_value("steam"), "steam");
    assert_eq!(encode_query_value("a/b?c%"), "a%2Fb%3Fc%25");
    assert_eq!(encode_query_value(""), "");
}

#[test]
fn duplicate_names_do_not_read() {
    let info = || {
        JsonValue::Object(vec![
            ("command".to_string(), JsonValue::Str("x.y".to_string())),
            ("status".to_string(), JsonValue::Str("disabled".to_string())),
        ])
    };
    let twice_alias = JsonValue::Object(vec![(
        "snap".to_string(),
        JsonValue::Object(vec![("a".to_string(), info()), ("a".to_string(), info())]),
    )]);
    assert_eq!(Aliases::from_json(&twice_alias).unwrap_err(), ParseError::Shape);
    let snap = || JsonValue::Object(vec![("a".to_string(), info())]);
    let twice_snap =
        JsonValue::Object(vec![("s".to_string(), snap()), ("s".to_string(), snap())]);
    assert_eq!(Aliases::from_json(&twice_snap).unwrap_err(), ParseError::Shape);
    let distinct = JsonValue::Object(vec![("s".to_string(), snap()), ("t".to_string(), snap())]);
    assert_eq!(Aliases::from_json(&distinct).unwrap().0.len(), 2);
}

#[test]
fn name_from_declaration() {
    let declaration = SnapDeclaration { snap_id: "id".into(), snap_name: "steam".into() };
    assert_eq!(SnapNameFromId::name_from_declaration(declaration).unwrap().as_str(), "steam");
    let empty = SnapDeclaration::default();
    assert_eq!(
        SnapNameFromId::name_from_declaration(empty).unwrap_err(),
        SnapDeclarationError::NoSnapsFound
    );
}
