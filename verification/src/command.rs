//! The requests that are answered with data, and the one entry point that
//! decodes the reply to any of them.

use crate::client::{
    decode_clients, spec_active_window, spec_clients, ActiveWindow, Client, ClientView,
};
use crate::device::{decode_devices, spec_devices, Devices, DevicesView};
use crate::error::{agrees, DecodeError, DecodeErrorView};
use crate::keyword::{decode_keyword, spec_keyword, Keyword, KeywordView, OptionKind};
use crate::layer::{decode_layers, spec_layers, Layers, LayersView};
use crate::monitor::{decode_monitors, spec_monitors, Monitor, MonitorView};
use crate::value::{Value, ValueView};
use crate::version::{decode_version, spec_version, Version, VersionView};
use crate::workspace::{decode_workspaces, spec_workspaces, Workspace, WorkspaceView};
use vstd::prelude::*;

verus! {

/// The requests that are answered with data. A command says which shape the
/// reply has; it decodes nothing itself.
#[derive(Debug, Clone, PartialEq, Eq)]
pub enum DataCommands {
    Monitors,
    Workspaces,
    Clients,
    ActiveWindow,
    Layers,
    Devices,
    Version,
    /// The option of this name.
    Keyword(String),
}

/// The decoded reply to a command.
#[derive(Debug, Clone, PartialEq, Eq)]
pub enum Data {
    Monitors(Vec<Monitor>),
    Workspaces(Vec<Workspace>),
    Clients(Vec<Client>),
    ActiveWindow(ActiveWindow),
    Layers(Layers),
    Devices(Devices),
    Version(Version),
    Keyword(Keyword),
}

/// The mathematical model of a [`Data`].
pub enum DataView {
    Monitors(Seq<MonitorView>),
    Workspaces(Seq<WorkspaceView>),
    Clients(Seq<ClientView>),
    ActiveWindow(Option<ClientView>),
    Layers(LayersView),
    Devices(DevicesView),
    Version(VersionView),
    Keyword(KeywordView),
}

impl DeepView for Data {
    type V = DataView;

    open spec fn deep_view(&self) -> DataView {
        match self {
            Data::Monitors(monitors) => DataView::Monitors(monitors.deep_view()),
            Data::Workspaces(workspaces) => DataView::Workspaces(workspaces.deep_view()),
            Data::Clients(clients) => DataView::Clients(clients.deep_view()),
            Data::ActiveWindow(window) => DataView::ActiveWindow(window.deep_view()),
            Data::Layers(layers) => DataView::Layers(layers.deep_view()),
            Data::Devices(devices) => DataView::Devices(devices.deep_view()),
            Data::Version(version) => DataView::Version(version.deep_view()),
            Data::Keyword(keyword) => DataView::Keyword(keyword.deep_view()),
        }
    }
}

/// What the reply `v` to `command` decodes to: the result of the decoder
/// that the command names, and of no other. `kind` is read for `Keyword`
/// only.
pub open spec fn spec_decode(command: DataCommands, v: ValueView, kind: OptionKind) -> Result<
    DataView,
    DecodeErrorView,
> {
    match command {
        DataCommands::Monitors => match spec_monitors(v) {
            Ok(monitors) => Ok(DataView::Monitors(monitors)),
            Err(e) => Err(e),
        },
        DataCommands::Workspaces => match spec_workspaces(v) {
            Ok(workspaces) => Ok(DataView::Workspaces(workspaces)),
            Err(e) => Err(e),
        },
        DataCommands::Clients => match spec_clients(v) {
            Ok(clients) => Ok(DataView::Clients(clients)),
            Err(e) => Err(e),
        },
        DataCommands::ActiveWindow => match spec_active_window(v) {
            Ok(window) => Ok(DataView::ActiveWindow(window)),
            Err(e) => Err(e),
        },
        DataCommands::Layers => match spec_layers(v) {
            Ok(layers) => Ok(DataView::Layers(layers)),
            Err(e) => Err(e),
        },
        DataCommands::Devices => match spec_devices(v) {
            Ok(devices) => Ok(DataView::Devices(devices)),
            Err(e) => Err(e),
        },
        DataCommands::Version => match spec_version(v) {
            Ok(version) => Ok(DataView::Version(version)),
            Err(e) => Err(e),
        },
        DataCommands::Keyword(_) => match spec_keyword(v, kind) {
            Ok(keyword) => Ok(DataView::Keyword(keyword)),
            Err(e) => Err(e),
        },
    }
}

/// Decodes the reply to `command`. `kind` is the kind that the option was
/// declared with where the command asks for one, and is not read otherwise.
pub fn decode(command: &DataCommands, payload: Value, kind: OptionKind) -> (r: Result<
    Data,
    DecodeError,
>)
    ensures
        agrees(r, spec_decode(*command, payload.deep_view(), kind)),
        r matches Ok(Data::Monitors(monitors)) ==> forall|k: int|
            0 <= k < monitors.len() ==> (#[trigger] monitors[k]).wf(),
        r matches Ok(Data::Layers(layers)) ==> layers.wf(),
{
    match command {
        DataCommands::Monitors => Ok(Data::Monitors(decode_monitors(&payload)?)),
        DataCommands::Workspaces => Ok(Data::Workspaces(decode_workspaces(&payload)?)),
        DataCommands::Clients => Ok(Data::Clients(decode_clients(&payload)?)),
        DataCommands::ActiveWindow => Ok(Data::ActiveWindow(ActiveWindow::from(payload)?)),
        DataCommands::Layers => Ok(Data::Layers(decode_layers(&payload)?)),
        DataCommands::Devices => Ok(Data::Devices(decode_devices(&payload)?)),
        DataCommands::Version => Ok(Data::Version(decode_version(&payload)?)),
        DataCommands::Keyword(_) => Ok(Data::Keyword(decode_keyword(&payload, kind)?)),
    }
}

} // verus!
