//! Workspaces, and the identity that the wire overloads with a marker.

use crate::error::{agrees, DecodeError, DecodeErrorView, Entity};
use crate::read::{
    after, as_array, as_object, bool_field, int_field, lemma_each_end, lemma_each_start,
    lemma_each_step, spec_array, spec_bool_field, spec_each, spec_int_field, spec_object,
    spec_text_field, text_field,
};
use crate::value::{Value, ValueView};
use vstd::prelude::*;

verus! {

/// The id under which the wire reports the special workspace.
pub const SPECIAL_WORKSPACE_ID: i64 = -99;

/// Which workspace is meant: a numbered one, or the special one.
#[derive(Debug, Clone, Copy, PartialEq, Eq)]
pub enum WorkspaceIdentity {
    Regular(u8),
    Special,
}

impl DeepView for WorkspaceIdentity {
    type V = WorkspaceIdentity;

    open spec fn deep_view(&self) -> WorkspaceIdentity {
        *self
    }
}

/// The identity that a wire id stands for: the marker is the special
/// workspace, 0 to 255 a regular one, and nothing else is an identity.
pub open spec fn spec_workspace_identity(raw: i64) -> Result<WorkspaceIdentity, DecodeErrorView> {
    if raw == SPECIAL_WORKSPACE_ID {
        Ok(WorkspaceIdentity::Special)
    } else if 0 <= raw <= 255 {
        Ok(WorkspaceIdentity::Regular(raw as u8))
    } else {
        Err(DecodeErrorView::UnrepresentableSentinel { value: raw })
    }
}

/// The marker reads as the special workspace, each of 0 to 255 as the
/// regular workspace of that number, and every other id is refused with the
/// id itself in the error.
pub proof fn law_workspace_identity(raw: i64)
    ensures
        raw == -99 ==> spec_workspace_identity(raw) == Ok::<WorkspaceIdentity, DecodeErrorView>(
            WorkspaceIdentity::Special,
        ),
        0 <= raw <= 255 ==> spec_workspace_identity(raw) == Ok::<WorkspaceIdentity, DecodeErrorView>(
            WorkspaceIdentity::Regular(raw as u8),
        ),
        raw != -99 && !(0 <= raw <= 255) ==> spec_workspace_identity(raw) == Err::<
            WorkspaceIdentity,
            DecodeErrorView,
        >(DecodeErrorView::UnrepresentableSentinel { value: raw }),
{
}

/// Reads a wire id as a workspace identity. No id is clamped or defaulted.
pub fn decode_workspace_identity(raw: i64) -> (r: Result<WorkspaceIdentity, DecodeError>)
    ensures
        agrees(r, spec_workspace_identity(raw)),
        raw == SPECIAL_WORKSPACE_ID ==> r == Ok::<WorkspaceIdentity, DecodeError>(
            WorkspaceIdentity::Special,
        ),
        0 <= raw <= 255 ==> r == Ok::<WorkspaceIdentity, DecodeError>(
            WorkspaceIdentity::Regular(raw as u8),
        ),
        raw != SPECIAL_WORKSPACE_ID && !(0 <= raw <= 255) ==> r == Err::<
            WorkspaceIdentity,
            DecodeError,
        >(DecodeError::UnrepresentableSentinel { value: raw }),
{
    if raw == SPECIAL_WORKSPACE_ID {
        Ok(WorkspaceIdentity::Special)
    } else if 0 <= raw && raw <= 255 {
        Ok(WorkspaceIdentity::Regular(raw as u8))
    } else {
        Err(DecodeError::UnrepresentableSentinel { value: raw })
    }
}

/// What other entities hold of the workspace they are on: a copy, no link.
#[derive(Debug, Clone, PartialEq, Eq)]
pub struct WorkspaceBasic {
    pub id: WorkspaceIdentity,
    pub name: String,
}

/// The mathematical model of a [`WorkspaceBasic`].
pub struct WorkspaceBasicView {
    pub id: WorkspaceIdentity,
    pub name: Seq<char>,
}

impl DeepView for WorkspaceBasic {
    type V = WorkspaceBasicView;

    open spec fn deep_view(&self) -> WorkspaceBasicView {
        WorkspaceBasicView { id: self.id, name: self.name@ }
    }
}

/// A workspace reference as an object holds it: `id`, then `name`.
pub open spec fn spec_workspace_basic(v: ValueView) -> Result<WorkspaceBasicView, DecodeErrorView> {
    let entity = Entity::WorkspaceBasic;
    let object = spec_object(v, entity, ""@);
    let members = object->Ok_0;
    let raw = spec_int_field(members, entity, "id"@, i64::MIN, i64::MAX);
    let id = spec_workspace_identity(raw->Ok_0);
    let name = spec_text_field(members, entity, "name"@);
    if object is Err {
        Err(object->Err_0)
    } else if raw is Err {
        Err(raw->Err_0)
    } else if id is Err {
        Err(id->Err_0)
    } else if name is Err {
        Err(name->Err_0)
    } else {
        Ok(WorkspaceBasicView { id: id->Ok_0, name: name->Ok_0 })
    }
}

/// Decodes the workspace reference that a monitor or a client carries.
pub fn decode_workspace_basic(v: &Value) -> (r: Result<WorkspaceBasic, DecodeError>)
    ensures
        agrees(r, spec_workspace_basic(v.deep_view())),
{
    let entity = Entity::WorkspaceBasic;
    let members = as_object(v, entity, "")?;
    let raw = int_field(members, entity, "id", i64::MIN, i64::MAX)?;
    let id = decode_workspace_identity(raw)?;
    let name = text_field(members, entity, "name")?;
    Ok(WorkspaceBasic { id, name })
}

/// A workspace as the wire shapes it, the id still a bare number.
#[derive(Debug, Clone, PartialEq, Eq)]
pub struct WorkspaceRaw {
    pub id: i8,
    pub name: String,
    pub monitor: String,
    pub windows: u8,
    pub fullscreen: bool,
}

/// The mathematical model of a [`WorkspaceRaw`].
pub struct WorkspaceRawView {
    pub id: i8,
    pub name: Seq<char>,
    pub monitor: Seq<char>,
    pub windows: u8,
    pub fullscreen: bool,
}

impl DeepView for WorkspaceRaw {
    type V = WorkspaceRawView;

    open spec fn deep_view(&self) -> WorkspaceRawView {
        WorkspaceRawView {
            id: self.id,
            name: self.name@,
            monitor: self.monitor@,
            windows: self.windows,
            fullscreen: self.fullscreen,
        }
    }
}

/// A logical desktop.
#[derive(Debug, Clone, PartialEq, Eq)]
pub struct Workspace {
    pub id: WorkspaceIdentity,
    pub name: String,
    /// The name of the monitor that shows the workspace.
    pub monitor: String,
    /// How many windows are on it.
    pub windows: u8,
    /// Whether one of them is fullscreen.
    pub fullscreen: bool,
}

/// The mathematical model of a [`Workspace`].
pub struct WorkspaceView {
    pub id: WorkspaceIdentity,
    pub name: Seq<char>,
    pub monitor: Seq<char>,
    pub windows: u8,
    pub fullscreen: bool,
}

impl DeepView for Workspace {
    type V = WorkspaceView;

    open spec fn deep_view(&self) -> WorkspaceView {
        WorkspaceView {
            id: self.id,
            name: self.name@,
            monitor: self.monitor@,
            windows: self.windows,
            fullscreen: self.fullscreen,
        }
    }
}

/// A wire workspace as an object holds it: `id`, `name`, `monitor`,
/// `windows`, `hasfullscreen`.
pub open spec fn spec_workspace_raw(v: ValueView) -> Result<WorkspaceRawView, DecodeErrorView> {
    let entity = Entity::Workspace;
    let object = spec_object(v, entity, ""@);
    let members = object->Ok_0;
    let id = spec_int_field(members, entity, "id"@, -128i64, 127);
    let name = spec_text_field(members, entity, "name"@);
    let monitor = spec_text_field(members, entity, "monitor"@);
    let windows = spec_int_field(members, entity, "windows"@, 0, 255);
    let fullscreen = spec_bool_field(members, entity, "hasfullscreen"@);
    if object is Err {
        Err(object->Err_0)
    } else if id is Err {
        Err(id->Err_0)
    } else if name is Err {
        Err(name->Err_0)
    } else if monitor is Err {
        Err(monitor->Err_0)
    } else if windows is Err {
        Err(windows->Err_0)
    } else if fullscreen is Err {
        Err(fullscreen->Err_0)
    } else {
        Ok(
            WorkspaceRawView {
                id: id->Ok_0 as i8,
                name: name->Ok_0,
                monitor: monitor->Ok_0,
                windows: windows->Ok_0 as u8,
                fullscreen: fullscreen->Ok_0,
            },
        )
    }
}

/// The workspace that a wire workspace stands for: its id read as an
/// identity, the rest as it is.
pub open spec fn spec_workspace_from(raw: WorkspaceRawView) -> Result<WorkspaceView, DecodeErrorView> {
    match spec_workspace_identity(raw.id as i64) {
        Err(e) => Err(e),
        Ok(id) => Ok(
            WorkspaceView {
                id,
                name: raw.name,
                monitor: raw.monitor,
                windows: raw.windows,
                fullscreen: raw.fullscreen,
            },
        ),
    }
}

/// A workspace as a reply holds it.
pub open spec fn spec_workspace(v: ValueView) -> Result<WorkspaceView, DecodeErrorView> {
    match spec_workspace_raw(v) {
        Err(e) => Err(e),
        Ok(raw) => spec_workspace_from(raw),
    }
}

/// The decoder of one item of a workspace list.
pub open spec fn workspace_decoder() -> spec_fn(ValueView) -> Result<WorkspaceView, DecodeErrorView> {
    |v: ValueView| spec_workspace(v)
}

/// The reply to a request for the workspaces: an array of them.
pub open spec fn spec_workspaces(v: ValueView) -> Result<Seq<WorkspaceView>, DecodeErrorView> {
    match spec_array(v, Entity::Workspaces, ""@) {
        Err(e) => Err(e),
        Ok(items) => spec_each(items, workspace_decoder()),
    }
}

/// Reads an object as a wire workspace.
pub fn decode_workspace_raw(v: &Value) -> (r: Result<WorkspaceRaw, DecodeError>)
    ensures
        agrees(r, spec_workspace_raw(v.deep_view())),
{
    let entity = Entity::Workspace;
    let members = as_object(v, entity, "")?;
    let id = int_field(members, entity, "id", -128, 127)?;
    let name = text_field(members, entity, "name")?;
    let monitor = text_field(members, entity, "monitor")?;
    let windows = int_field(members, entity, "windows", 0, 255)?;
    let fullscreen = bool_field(members, entity, "hasfullscreen")?;
    Ok(WorkspaceRaw { id: id as i8, name, monitor, windows: windows as u8, fullscreen })
}

impl Workspace {
    /// Turns a wire workspace into a workspace. It fails, with
    /// `UnrepresentableSentinel`, exactly when the id is negative and not the
    /// marker of the special workspace.
    pub fn from(raw: WorkspaceRaw) -> (r: Result<Workspace, DecodeError>)
        ensures
            agrees(r, spec_workspace_from(raw.deep_view())),
            r is Ok <==> raw.id >= 0 || raw.id == SPECIAL_WORKSPACE_ID,
            r is Err ==> r == Err::<Workspace, DecodeError>(
                DecodeError::UnrepresentableSentinel { value: raw.id as i64 },
            ),
    {
        let id = decode_workspace_identity(raw.id as i64)?;
        Ok(
            Workspace {
                id,
                name: raw.name,
                monitor: raw.monitor,
                windows: raw.windows,
                fullscreen: raw.fullscreen,
            },
        )
    }
}

/// Decodes one workspace of a reply.
pub fn decode_workspace(v: &Value) -> (r: Result<Workspace, DecodeError>)
    ensures
        agrees(r, spec_workspace(v.deep_view())),
{
    let raw = decode_workspace_raw(v)?;
    Workspace::from(raw)
}

/// Decodes the reply to a request for the workspaces.
pub fn decode_workspaces(payload: &Value) -> (r: Result<Vec<Workspace>, DecodeError>)
    ensures
        agrees(r, spec_workspaces(payload.deep_view())),
{
    let items = as_array(payload, Entity::Workspaces, "")?;
    let ghost all = items.deep_view();
    let ghost decode = workspace_decoder();
    let mut out: Vec<Workspace> = Vec::new();
    let mut i: usize = 0;
    proof {
        lemma_each_start(all, decode);
        assert(out.deep_view() =~= Seq::empty());
    }
    while i < items.len()
        invariant
            i <= items.len(),
            all == items.deep_view(),
            decode == workspace_decoder(),
            spec_workspaces(payload.deep_view()) == spec_each(all, decode),
            spec_each(all, decode) == after(out.deep_view(), spec_each(all.skip(i as int), decode)),
        decreases items.len() - i,
    {
        let ghost before = out.deep_view();
        proof {
            lemma_each_step(all, decode, before, i as int);
        }
        let item = decode_workspace(&items[i])?;
        let ghost item_view = item.deep_view();
        out.push(item);
        proof {
            assert(out.deep_view() =~= before.push(item_view));
        }
        i += 1;
    }
    proof {
        lemma_each_end(all, decode, out.deep_view());
    }
    Ok(out)
}

} // verus!
