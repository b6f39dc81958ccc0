use hyprland_data::client::{decode_client, decode_clients, ActiveWindow, Address, Client};
use hyprland_data::command::{decode, Data, DataCommands};
use hyprland_data::error::{DecodeError, Entity, Expected, Kind};
use hyprland_data::keyword::{Keyword, OptionKind, OptionValue};
use hyprland_data::monitor::{decode_monitor, decode_monitors, Monitor, Transforms};
use hyprland_data::value::{Member, Number, Value};
use hyprland_data::version::{decode_flags, decode_version, Version};
use hyprland_data::workspace::{
    decode_workspace, decode_workspace_basic, decode_workspace_raw, decode_workspaces, Workspace,
    WorkspaceBasic, WorkspaceIdentity, WorkspaceRaw,
};

fn en_text(x: &str) -> Value {
    Value::Str(x.to_string())
}

fn en_int(x: i64) -> Value {
    Value::Number(Number::Int(x))
}

fn en_real(x: f64) -> Value {
    Value::Number(Number::Real(x.to_bits()))
}

fn en_object(pairs: Vec<(&str, Value)>) -> Value {
    let mut members = Vec::new();
    for (key, value) in pairs {
        members.push(Member { key: key.to_string(), value });
    }
    Value::Object(members)
}

fn en_without(v: Value, key: &str) -> Value {
    match v {
        Value::Object(members) => {
            Value::Object(members.into_iter().filter(|m| m.key != key).collect())
        },
        other => other,
    }
}

fn en_with(v: Value, key: &str, value: Value) -> Value {
    match en_without(v, key) {
        Value::Object(mut members) => {
            members.push(Member { key: key.to_string(), value });
            Value::Object(members)
        },
        other => other,
    }
}

fn en_workspace_ref(id: i64, name: &str) -> Value {
    en_object(vec![("id", en_int(id)), ("name", en_text(name))])
}

fn en_monitor() -> Value {
    en_object(vec![
        ("id", en_int(0)),
        ("name", en_text("eDP-1")),
        ("width", en_int(1920)),
        ("height", en_int(1080)),
        ("refreshRate", en_real(60.001)),
        ("x", en_int(-1920)),
        ("y", en_int(0)),
        ("activeWorkspace", en_workspace_ref(-99, "special")),
        ("reserved", Value::Array(vec![en_int(0), en_int(30), en_int(0), en_int(0)])),
        ("scale", en_real(1.5)),
        ("transform", en_int(3)),
        ("focused", Value::Bool(true)),
    ])
}

fn en_client() -> Value {
    en_object(vec![
        ("address", en_text("0x55d1c0a8")),
        ("at", Value::Array(vec![en_int(-12), en_int(44)])),
        ("size", Value::Array(vec![en_int(800), en_int(600)])),
        ("workspace", en_workspace_ref(2, "2")),
        ("floating", Value::Bool(false)),
        ("monitor", en_int(1)),
        ("class", en_text("kitty")),
        ("title", en_text("~/src")),
        ("pid", en_int(4242)),
        ("xwayland", Value::Bool(true)),
    ])
}

fn en_client_decoded() -> Client {
    Client {
        address: Address("0x55d1c0a8".to_string()),
        at: (-12, 44),
        size: (800, 600),
        workspace: WorkspaceBasic { id: WorkspaceIdentity::Regular(2), name: "2".to_string() },
        floating: false,
        monitor: 1,
        class: "kitty".to_string(),
        title: "~/src".to_string(),
        pid: 4242,
        xwayland: true,
    }
}

fn en_workspace(id: i64) -> Value {
    en_object(vec![
        ("id", en_int(id)),
        ("name", en_text("web")),
        ("monitor", en_text("DP-1")),
        ("windows", en_int(3)),
        ("hasfullscreen", Value::Bool(true)),
    ])
}

fn en_version() -> Value {
    en_object(vec![
        ("branch", en_text("main")),
        ("commit", en_text("8e2a62e5")),
        ("dirty", Value::Bool(false)),
        ("commit_message", en_text("fix: layers")),
        ("flags", Value::Array(vec![en_text("debug"), en_text("no xwayland")])),
    ])
}

#[test]
fn monitor_with_transform_three_on_the_special_workspace() {
    let monitor = decode_monitor(&en_monitor()).unwrap();
    assert_eq!(monitor.transform, Transforms::Normal270);
    assert_eq!(monitor.active_workspace.id, WorkspaceIdentity::Special);
    assert_eq!(
        monitor,
        Monitor {
            id: 0,
            name: "eDP-1".to_string(),
            width: 1920,
            height: 1080,
            refresh_rate: Number::Real(60.001f64.to_bits()),
            x: -1920,
            y: 0,
            active_workspace: WorkspaceBasic {
                id: WorkspaceIdentity::Special,
                name: "special".to_string(),
            },
            reserved: (0, 30, 0, 0),
            scale: Number::Real(1.5f64.to_bits()),
            transform: Transforms::Normal270,
            focused: true,
        }
    );
    assert_eq!(monitor.clone(), monitor);
}

#[test]
fn monitor_takes_a_whole_refresh_rate() {
    let monitor = decode_monitor(&en_with(en_monitor(), "refreshRate", en_int(60))).unwrap();
    assert_eq!(monitor.refresh_rate, Number::Int(60));
}

#[test]
fn monitor_without_extent_is_refused() {
    assert_eq!(
        decode_monitor(&en_with(en_monitor(), "width", en_int(0))),
        Err(DecodeError::TypeMismatch {
            entity: Entity::Monitor,
            field: "width",
            expected: Expected::Int { min: 1, max: 65535 },
            actual: Kind::Int,
        })
    );
    assert_eq!(
        decode_monitor(&en_with(en_monitor(), "height", en_int(65536))),
        Err(DecodeError::TypeMismatch {
            entity: Entity::Monitor,
            field: "height",
            expected: Expected::Int { min: 1, max: 65535 },
            actual: Kind::Int,
        })
    );
}

#[test]
fn monitor_with_unknown_transform_is_refused() {
    assert_eq!(
        decode_monitor(&en_with(en_monitor(), "transform", en_int(8))),
        Err(DecodeError::UnknownVariant {
            entity: Entity::Monitor,
            field: "transform",
            value: hyprland_data::error::Discriminant::Code(8),
        })
    );
}

#[test]
fn monitor_reports_the_first_fault() {
    let broken = en_without(en_without(en_monitor(), "name"), "focused");
    assert_eq!(
        decode_monitor(&broken),
        Err(DecodeError::MissingField { entity: Entity::Monitor, field: "name" })
    );
    assert_eq!(
        decode_monitor(&en_without(en_monitor(), "refreshRate")),
        Err(DecodeError::MissingField { entity: Entity::Monitor, field: "refreshRate" })
    );
    assert_eq!(
        decode_monitor(&en_without(en_monitor(), "activeWorkspace")),
        Err(DecodeError::MissingField { entity: Entity::Monitor, field: "activeWorkspace" })
    );
    assert_eq!(
        decode_monitor(&Value::Null),
        Err(DecodeError::TypeMismatch {
            entity: Entity::Monitor,
            field: "",
            expected: Expected::Object,
            actual: Kind::Null,
        })
    );
}

#[test]
fn monitor_with_unknown_workspace_id_is_refused() {
    let monitor = en_with(en_monitor(), "activeWorkspace", en_workspace_ref(-5, "x"));
    assert_eq!(decode_monitor(&monitor), Err(DecodeError::UnrepresentableSentinel { value: -5 }));
    let monitor = en_with(en_monitor(), "activeWorkspace", en_workspace_ref(300, "x"));
    assert_eq!(decode_monitor(&monitor), Err(DecodeError::UnrepresentableSentinel { value: 300 }));
}

#[test]
fn monitors_are_decoded_in_order() {
    let payload = Value::Array(vec![en_monitor(), en_with(en_monitor(), "id", en_int(1))]);
    let monitors = decode_monitors(&payload).unwrap();
    assert_eq!(monitors.len(), 2);
    assert_eq!(monitors[0].id, 0);
    assert_eq!(monitors[1].id, 1);
    assert_eq!(decode_monitors(&Value::Array(Vec::new())), Ok(Vec::new()));
}

#[test]
fn monitors_report_the_first_item_that_fails() {
    let payload = Value::Array(vec![
        en_monitor(),
        en_without(en_monitor(), "scale"),
        en_without(en_monitor(), "id"),
    ]);
    assert_eq!(
        decode_monitors(&payload),
        Err(DecodeError::MissingField { entity: Entity::Monitor, field: "scale" })
    );
    assert_eq!(
        decode_monitors(&en_monitor()),
        Err(DecodeError::TypeMismatch {
            entity: Entity::Monitors,
            field: "",
            expected: Expected::Array,
            actual: Kind::Object,
        })
    );
}

#[test]
fn workspace_basic_reads_id_and_name() {
    assert_eq!(
        decode_workspace_basic(&en_workspace_ref(255, "last")),
        Ok(WorkspaceBasic { id: WorkspaceIdentity::Regular(255), name: "last".to_string() })
    );
    assert_eq!(
        decode_workspace_basic(&en_object(vec![("id", en_text("1")), ("name", en_text("1"))])),
        Err(DecodeError::TypeMismatch {
            entity: Entity::WorkspaceBasic,
            field: "id",
            expected: Expected::Int { min: i64::MIN, max: i64::MAX },
            actual: Kind::Str,
        })
    );
    assert_eq!(
        decode_workspace_basic(&en_object(vec![("id", en_int(1))])),
        Err(DecodeError::MissingField { entity: Entity::WorkspaceBasic, field: "name" })
    );
}

#[test]
fn workspace_raw_renames_hasfullscreen() {
    assert_eq!(
        decode_workspace_raw(&en_workspace(-99)),
        Ok(WorkspaceRaw {
            id: -99,
            name: "web".to_string(),
            monitor: "DP-1".to_string(),
            windows: 3,
            fullscreen: true,
        })
    );
    assert_eq!(
        decode_workspace_raw(&en_with(
            en_without(en_workspace(1), "hasfullscreen"),
            "fullscreen",
            Value::Bool(true)
        )),
        Err(DecodeError::MissingField { entity: Entity::Workspace, field: "hasfullscreen" })
    );
    assert_eq!(
        decode_workspace_raw(&en_workspace(128)),
        Err(DecodeError::TypeMismatch {
            entity: Entity::Workspace,
            field: "id",
            expected: Expected::Int { min: -128, max: 127 },
            actual: Kind::Int,
        })
    );
}

#[test]
fn workspace_with_minus_five_is_refused() {
    assert_eq!(
        decode_workspace(&en_workspace(-5)),
        Err(DecodeError::UnrepresentableSentinel { value: -5 })
    );
    assert_eq!(
        decode_workspaces(&Value::Array(vec![en_workspace(1), en_workspace(-5)])),
        Err(DecodeError::UnrepresentableSentinel { value: -5 })
    );
}

#[test]
fn workspaces_are_decoded_in_order() {
    let payload = Value::Array(vec![en_workspace(2), en_workspace(-99), en_workspace(0)]);
    let workspaces = decode_workspaces(&payload).unwrap();
    let ids: Vec<WorkspaceIdentity> = workspaces.iter().map(|w| w.id).collect();
    assert_eq!(
        ids,
        vec![
            WorkspaceIdentity::Regular(2),
            WorkspaceIdentity::Special,
            WorkspaceIdentity::Regular(0)
        ]
    );
    assert_eq!(
        workspaces[0],
        Workspace {
            id: WorkspaceIdentity::Regular(2),
            name: "web".to_string(),
            monitor: "DP-1".to_string(),
            windows: 3,
            fullscreen: true,
        }
    );
}

#[test]
fn client_is_decoded_field_by_field() {
    let client = decode_client(&en_client()).unwrap();
    assert_eq!(client, en_client_decoded());
    assert_eq!(client.clone(), client);
}

#[test]
fn client_position_is_held_to_sixteen_bits() {
    let far = en_with(en_client(), "at", Value::Array(vec![en_int(40000), en_int(0)]));
    assert_eq!(
        decode_client(&far),
        Err(DecodeError::TypeMismatch {
            entity: Entity::Client,
            field: "at",
            expected: Expected::Int { min: -32768, max: 32767 },
            actual: Kind::Int,
        })
    );
    let edge = en_with(en_client(), "at", Value::Array(vec![en_int(-32768), en_int(32767)]));
    assert_eq!(decode_client(&edge).map(|c| c.at), Ok((-32768, 32767)));
    let negative = en_with(en_client(), "pid", en_int(-1));
    assert_eq!(
        decode_client(&negative),
        Err(DecodeError::TypeMismatch {
            entity: Entity::Client,
            field: "pid",
            expected: Expected::Int { min: 0, max: 4294967295 },
            actual: Kind::Int,
        })
    );
}

#[test]
fn clients_are_decoded_in_order() {
    let payload = Value::Array(vec![en_client(), en_with(en_client(), "pid", en_int(1))]);
    let clients = decode_clients(&payload).unwrap();
    assert_eq!(clients.len(), 2);
    assert_eq!(clients[0], en_client_decoded());
    assert_eq!(clients[1].pid, 1);
}

#[test]
fn active_window_of_empty_object_is_none() {
    assert_eq!(ActiveWindow::from(Value::Object(Vec::new())), Ok(ActiveWindow(None)));
}

#[test]
fn active_window_of_a_client_is_that_client() {
    assert_eq!(ActiveWindow::from(en_client()), Ok(ActiveWindow(Some(en_client_decoded()))));
}

#[test]
fn active_window_of_a_partial_client_fails() {
    assert_eq!(
        ActiveWindow::from(en_object(vec![("address", en_text("0x1"))])),
        Err(DecodeError::MissingField { entity: Entity::Client, field: "at" })
    );
    assert_eq!(
        ActiveWindow::from(Value::Null),
        Err(DecodeError::TypeMismatch {
            entity: Entity::Client,
            field: "",
            expected: Expected::Object,
            actual: Kind::Null,
        })
    );
}

#[test]
fn version_is_decoded_with_its_flags() {
    assert_eq!(
        decode_version(&en_version()),
        Ok(Version {
            branch: "main".to_string(),
            commit: "8e2a62e5".to_string(),
            dirty: false,
            commit_message: "fix: layers".to_string(),
            flags: vec!["debug".to_string(), "no xwayland".to_string()],
        })
    );
    assert_eq!(
        decode_version(&en_with(en_version(), "flags", Value::Array(vec![en_text("a"), en_int(1)]))),
        Err(DecodeError::TypeMismatch {
            entity: Entity::Version,
            field: "flags",
            expected: Expected::Str,
            actual: Kind::Int,
        })
    );
    assert_eq!(decode_flags(&Vec::new()), Ok(Vec::new()));
}

#[test]
fn decode_runs_the_decoder_that_the_command_names() {
    let kind = OptionKind::Int;
    assert_eq!(
        decode(&DataCommands::ActiveWindow, Value::Object(Vec::new()), kind),
        Ok(Data::ActiveWindow(ActiveWindow(None)))
    );
    assert_eq!(
        decode(&DataCommands::Clients, Value::Array(vec![en_client()]), kind),
        Ok(Data::Clients(vec![en_client_decoded()]))
    );
    assert_eq!(
        decode(&DataCommands::Monitors, Value::Array(Vec::new()), kind),
        Ok(Data::Monitors(Vec::new()))
    );
    assert_eq!(
        decode(&DataCommands::Workspaces, Value::Array(Vec::new()), kind),
        Ok(Data::Workspaces(Vec::new()))
    );
    assert_eq!(
        decode(&DataCommands::Version, Value::Array(Vec::new()), kind),
        Err(DecodeError::TypeMismatch {
            entity: Entity::Version,
            field: "",
            expected: Expected::Object,
            actual: Kind::Array,
        })
    );
    let option = en_object(vec![
        ("option", en_text("general:gaps_in")),
        ("int", en_int(5)),
        ("float", en_real(0.0)),
        ("str", en_text("")),
    ]);
    assert_eq!(
        decode(&DataCommands::Keyword("general:gaps_in".to_string()), option, kind),
        Ok(Data::Keyword(Keyword {
            option: "general:gaps_in".to_string(),
            value: OptionValue::Int(5),
        }))
    );
    assert!(matches!(
        decode(&DataCommands::Version, en_version(), kind),
        Ok(Data::Version(_))
    ));
    assert!(matches!(
        decode(&DataCommands::Layers, Value::Object(Vec::new()), kind),
        Ok(Data::Layers(_))
    ));
    assert_eq!(
        decode(&DataCommands::Devices, Value::Object(Vec::new()), kind),
        Err(DecodeError::MissingField { entity: Entity::Devices, field: "mice" })
    );
}
