use snapd::api::command::SnapCommand as LooseCommand;
use snapd::api::snap::{App, SnapCommand, SnapName, SnapdDeserializeError, ToOwnedInner};
use std::borrow::Cow;

#[test]
fn snap_serialize_command() {
    assert_eq!(
        serde_json::to_string(&SnapCommand::from_convertible("lxd", "lxc").to_string())
            .expect("could not serialize snap command"),
        "\"lxd.lxc\""
    )
}

#[test]
fn snap_deserialize_command() {
    let text: String =
        serde_json::from_str("\"lxd.lxc\"").expect("could not deserialize snap command");
    assert_eq!(
        SnapCommand::from_raw(&text).expect("could not deserialize snap command"),
        SnapCommand::from_convertible("lxd", "lxc")
    )
}

#[test]
fn core_serialize_command() {
    assert_eq!(
        serde_json::to_string(&LooseCommand::from_convertible("lxd", "lxc").to_string())
            .expect("could not serialize snap command"),
        "\"lxd.lxc\""
    )
}

#[test]
fn core_deserialize_command() {
    let text: String =
        serde_json::from_str("\"lxd.lxc\"").expect("could not deserialize snap command");
    assert_eq!(LooseCommand::from_raw(&text), LooseCommand::from_convertible("lxd", "lxc"))
}

#[test]
fn strict_command_without_dot_is_malformed() {
    let err = SnapCommand::from_raw("foo").unwrap_err();
    assert_eq!(err, SnapdDeserializeError::MalformedCommand(Cow::Borrowed("foo")));
    assert_eq!(
        err.message(),
        "command string is malformed. expected [name].[command] got foo."
    );
}

#[test]
fn strict_command_owned_round_trip() {
    let cmd = SnapCommand::from_raw_owned("lxd.lxc".to_string()).unwrap();
    assert_eq!(cmd.name.as_str(), "lxd");
    assert_eq!(cmd.command.as_str(), "lxc");
    assert_eq!(cmd.to_string(), "lxd.lxc");
    assert!(SnapCommand::from_raw_owned("lxd".to_string()).is_err());
}

#[test]
fn command_splits_at_first_dot() {
    let cmd = SnapCommand::from_raw("a.b.c").unwrap();
    assert_eq!(cmd.name.as_str(), "a");
    assert_eq!(cmd.command.as_str(), "b.c");
    let loose = LooseCommand::from_raw("a.b.c");
    assert_eq!(loose.name.as_str(), "a");
    assert_eq!(loose.command.unwrap().as_str(), "b.c");
}

#[test]
fn empty_parts_around_dot() {
    let cmd = SnapCommand::from_raw(".").unwrap();
    assert_eq!(cmd.name.as_str(), "");
    assert_eq!(cmd.command.as_str(), "");
}

#[test]
fn loose_command_without_dot_is_name_only() {
    let cmd = LooseCommand::from_raw("foo");
    assert_eq!(cmd, LooseCommand::name_only("foo".into()));
    assert!(cmd.command.is_none());
    assert_eq!(cmd.to_string(), "foo");
    let owned = LooseCommand::from_raw_owned("foo".to_string());
    assert_eq!(owned, cmd);
}

#[test]
fn loose_command_text_round_trip() {
    let cmd = LooseCommand::from_parts(SnapName::from("lxd"), App::from("lxc"));
    let text = cmd.to_string();
    assert_eq!(text, "lxd.lxc");
    assert_eq!(LooseCommand::from_raw(&text), cmd);
}

#[test]
fn owned_copy_keeps_text() {
    let text = String::from("steam.vkinfo");
    let owned: SnapCommand<'static, 'static> = SnapCommand::from_raw(&text).unwrap().to_owned_inner();
    drop(text);
    assert_eq!(owned.name.as_str(), "steam");
    assert_eq!(owned.command.as_str(), "vkinfo");
    assert!(matches!(owned.name.0, Cow::Owned(_)));
}

#[test]
fn names_from_owned_and_borrowed_text_are_equal() {
    let a = SnapName::from("steam");
    let b = SnapName::from(String::from("steam"));
    assert_eq!(a, b);
    assert_eq!(a.clone(), b);
    assert_eq!(SnapName::default().as_str(), "");
}

#[test]
fn parts_borrow_or_own_their_text() {
    let cmd = SnapCommand::from_raw("lxd.lxc").unwrap();
    assert!(matches!(cmd.name.0, Cow::Borrowed(_)));
    assert!(matches!(cmd.command.0, Cow::Borrowed(_)));
    let cmd = SnapCommand::from_raw_owned("lxd.lxc".to_string()).unwrap();
    assert!(matches!(cmd.name.0, Cow::Owned(_)));
    assert!(matches!(cmd.command.0, Cow::Owned(_)));
    match SnapCommand::from_raw_owned("lxd".to_string()).unwrap_err() {
        SnapdDeserializeError::MalformedCommand(t) => assert!(matches!(t, Cow::Owned(_))),
    }
    let loose = LooseCommand::from_raw("lxd.lxc");
    assert!(matches!(loose.name.0, Cow::Borrowed(_)));
    assert!(matches!(loose.command.as_ref().unwrap().0, Cow::Borrowed(_)));
    let loose = LooseCommand::from_raw_owned("lxd.lxc".to_string());
    assert!(matches!(loose.name.0, Cow::Owned(_)));
    assert!(matches!(loose.command.as_ref().unwrap().0, Cow::Owned(_)));
}
