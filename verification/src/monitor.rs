//! Monitors, and the transform under which one shows its picture.

use crate::error::{agrees, DecodeError, DecodeErrorView, Discriminant, DiscriminantView, Entity};
use crate::read::{
    after, as_array, as_object, bool_field, int_field, lemma_each_end, lemma_each_start,
    lemma_each_step, number_field, quad_field, required, spec_array, spec_bool_field, spec_each,
    spec_int_field, spec_number_field, spec_object, spec_quad_field, spec_required,
    spec_text_field, text_field,
};
use crate::value::{Number, Value, ValueView};
use crate::workspace::{
    decode_workspace_basic, spec_workspace_basic, WorkspaceBasic, WorkspaceBasicView,
};
use vstd::prelude::*;

verus! {

/// The eight ways in which a monitor turns or flips its picture.
#[derive(Debug, Clone, Copy, PartialEq, Eq)]
pub enum Transforms {
    /// As it is.
    Normal,
    /// Turned by 90 degrees.
    Normal90,
    /// Turned by 180 degrees.
    Normal180,
    /// Turned by 270 degrees.
    Normal270,
    /// Flipped.
    Flipped,
    /// Flipped and turned by 90 degrees.
    Flipped90,
    /// Flipped and turned by 180 degrees.
    Flipped180,
    /// Flipped and turned by 270 degrees.
    Flipped270,
}

impl DeepView for Transforms {
    type V = Transforms;

    open spec fn deep_view(&self) -> Transforms {
        *self
    }
}

/// The number under which the wire reports a transform.
pub open spec fn spec_transform_code(transform: Transforms) -> u8 {
    match transform {
        Transforms::Normal => 0,
        Transforms::Normal90 => 1,
        Transforms::Normal180 => 2,
        Transforms::Normal270 => 3,
        Transforms::Flipped => 4,
        Transforms::Flipped90 => 5,
        Transforms::Flipped180 => 6,
        Transforms::Flipped270 => 7,
    }
}

/// The error for a number that is the code of no transform.
pub open spec fn unknown_transform(code: i64) -> DecodeErrorView {
    DecodeErrorView::UnknownVariant {
        entity: Entity::Monitor,
        field: "transform"@,
        value: DiscriminantView::Code(code),
    }
}

/// The transform that a wire code stands for.
pub open spec fn spec_transform(code: i64) -> Result<Transforms, DecodeErrorView> {
    if code == 0 {
        Ok(Transforms::Normal)
    } else if code == 1 {
        Ok(Transforms::Normal90)
    } else if code == 2 {
        Ok(Transforms::Normal180)
    } else if code == 3 {
        Ok(Transforms::Normal270)
    } else if code == 4 {
        Ok(Transforms::Flipped)
    } else if code == 5 {
        Ok(Transforms::Flipped90)
    } else if code == 6 {
        Ok(Transforms::Flipped180)
    } else if code == 7 {
        Ok(Transforms::Flipped270)
    } else {
        Err(unknown_transform(code))
    }
}

/// Decoding is total on the codes 0 to 7 and gives back the transform with
/// that code; every other number is refused as an unknown variant.
pub proof fn law_transform_decodes_its_code(code: i64)
    ensures
        0 <= code <= 7 ==> spec_transform(code) is Ok && spec_transform_code(
            spec_transform(code)->Ok_0,
        ) == code,
        !(0 <= code <= 7) ==> spec_transform(code) == Err::<Transforms, DecodeErrorView>(
            unknown_transform(code),
        ),
{
}

/// The code of a transform decodes to that transform.
pub proof fn law_transform_code_round_trip(transform: Transforms)
    ensures
        0 <= spec_transform_code(transform) <= 7,
        spec_transform(spec_transform_code(transform) as i64) == Ok::<Transforms, DecodeErrorView>(
            transform,
        ),
{
}

impl Transforms {
    /// The number under which the wire reports this transform.
    pub fn code(&self) -> (code: u8)
        ensures
            code == spec_transform_code(*self),
            code <= 7,
    {
        match self {
            Transforms::Normal => 0,
            Transforms::Normal90 => 1,
            Transforms::Normal180 => 2,
            Transforms::Normal270 => 3,
            Transforms::Flipped => 4,
            Transforms::Flipped90 => 5,
            Transforms::Flipped180 => 6,
            Transforms::Flipped270 => 7,
        }
    }
}

/// Reads a wire code as a transform. It succeeds exactly on 0 to 7, and the
/// transform it gives has the code it was given.
pub fn decode_transform(code: i64) -> (r: Result<Transforms, DecodeError>)
    ensures
        agrees(r, spec_transform(code)),
        r is Ok <==> 0 <= code <= 7,
        r matches Ok(transform) ==> spec_transform_code(transform) == code,
{
    match code {
        0 => Ok(Transforms::Normal),
        1 => Ok(Transforms::Normal90),
        2 => Ok(Transforms::Normal180),
        3 => Ok(Transforms::Normal270),
        4 => Ok(Transforms::Flipped),
        5 => Ok(Transforms::Flipped90),
        6 => Ok(Transforms::Flipped180),
        7 => Ok(Transforms::Flipped270),
        _ => Err(
            DecodeError::UnknownVariant {
                entity: Entity::Monitor,
                field: "transform",
                value: Discriminant::Code(code),
            },
        ),
    }
}

/// A display, physical or virtual.
#[derive(Debug, PartialEq, Eq)]
pub struct Monitor {
    pub id: u8,
    pub name: String,
    /// The width in pixels, never 0.
    pub width: u16,
    /// The height in pixels, never 0.
    pub height: u16,
    /// The refresh rate in hertz.
    pub refresh_rate: Number,
    /// The position of the monitor in the layout.
    pub x: i32,
    pub y: i32,
    pub active_workspace: WorkspaceBasic,
    /// The insets that docked surfaces have claimed at the four edges.
    pub reserved: (u8, u8, u8, u8),
    pub scale: Number,
    pub transform: Transforms,
    /// Whether the monitor has the focus.
    pub focused: bool,
}

/// The mathematical model of a [`Monitor`].
pub struct MonitorView {
    pub id: u8,
    pub name: Seq<char>,
    pub width: u16,
    pub height: u16,
    pub refresh_rate: Number,
    pub x: i32,
    pub y: i32,
    pub active_workspace: WorkspaceBasicView,
    pub reserved: (u8, u8, u8, u8),
    pub scale: Number,
    pub transform: Transforms,
    pub focused: bool,
}

impl DeepView for Monitor {
    type V = MonitorView;

    open spec fn deep_view(&self) -> MonitorView {
        MonitorView {
            id: self.id,
            name: self.name@,
            width: self.width,
            height: self.height,
            refresh_rate: self.refresh_rate,
            x: self.x,
            y: self.y,
            active_workspace: self.active_workspace.deep_view(),
            reserved: self.reserved,
            scale: self.scale,
            transform: self.transform,
            focused: self.focused,
        }
    }
}

impl Clone for Monitor {
    fn clone(&self) -> (copy: Monitor)
        ensures
            copy.deep_view() == self.deep_view(),
    {
        Monitor {
            id: self.id,
            name: self.name.clone(),
            width: self.width,
            height: self.height,
            refresh_rate: self.refresh_rate,
            x: self.x,
            y: self.y,
            active_workspace: WorkspaceBasic {
                id: self.active_workspace.id,
                name: self.active_workspace.name.clone(),
            },
            reserved: (self.reserved.0, self.reserved.1, self.reserved.2, self.reserved.3),
            scale: self.scale,
            transform: self.transform,
            focused: self.focused,
        }
    }
}

impl Monitor {
    /// What holds of every monitor that a decoder gives out.
    pub open spec fn wf(&self) -> bool {
        self.width > 0 && self.height > 0
    }
}

/// A monitor as an object holds it. The members are read in the order
/// `id`, `name`, `width`, `height`, `refreshRate`, `x`, `y`,
/// `activeWorkspace`, `reserved`, `scale`, `transform`, `focused`, and the
/// first that is missing or ill-shaped gives the error.
pub open spec fn spec_monitor(v: ValueView) -> Result<MonitorView, DecodeErrorView> {
    let entity = Entity::Monitor;
    let object = spec_object(v, entity, ""@);
    let members = object->Ok_0;
    let id = spec_int_field(members, entity, "id"@, 0, 255);
    let name = spec_text_field(members, entity, "name"@);
    let width = spec_int_field(members, entity, "width"@, 1, 65535);
    let height = spec_int_field(members, entity, "height"@, 1, 65535);
    let refresh_rate = spec_number_field(members, entity, "refreshRate"@);
    let x = spec_int_field(members, entity, "x"@, -2147483648i64, 2147483647);
    let y = spec_int_field(members, entity, "y"@, -2147483648i64, 2147483647);
    let workspace = spec_required(members, entity, "activeWorkspace"@);
    let active_workspace = spec_workspace_basic(workspace->Ok_0);
    let reserved = spec_quad_field(members, entity, "reserved"@, 0, 255);
    let scale = spec_number_field(members, entity, "scale"@);
    let code = spec_int_field(members, entity, "transform"@, i64::MIN, i64::MAX);
    let transform = spec_transform(code->Ok_0);
    let focused = spec_bool_field(members, entity, "focused"@);
    if object is Err {
        Err(object->Err_0)
    } else if id is Err {
        Err(id->Err_0)
    } else if name is Err {
        Err(name->Err_0)
    } else if width is Err {
        Err(width->Err_0)
    } else if height is Err {
        Err(height->Err_0)
    } else if refresh_rate is Err {
        Err(refresh_rate->Err_0)
    } else if x is Err {
        Err(x->Err_0)
    } else if y is Err {
        Err(y->Err_0)
    } else if workspace is Err {
        Err(workspace->Err_0)
    } else if active_workspace is Err {
        Err(active_workspace->Err_0)
    } else if reserved is Err {
        Err(reserved->Err_0)
    } else if scale is Err {
        Err(scale->Err_0)
    } else if code is Err {
        Err(code->Err_0)
    } else if transform is Err {
        Err(transform->Err_0)
    } else if focused is Err {
        Err(focused->Err_0)
    } else {
        Ok(
            MonitorView {
                id: id->Ok_0 as u8,
                name: name->Ok_0,
                width: width->Ok_0 as u16,
                height: height->Ok_0 as u16,
                refresh_rate: refresh_rate->Ok_0,
                x: x->Ok_0 as i32,
                y: y->Ok_0 as i32,
                active_workspace: active_workspace->Ok_0,
                reserved: (
                    reserved->Ok_0.0 as u8,
                    reserved->Ok_0.1 as u8,
                    reserved->Ok_0.2 as u8,
                    reserved->Ok_0.3 as u8,
                ),
                scale: scale->Ok_0,
                transform: transform->Ok_0,
                focused: focused->Ok_0,
            },
        )
    }
}

/// The decoder of one item of a monitor list.
pub open spec fn monitor_decoder() -> spec_fn(ValueView) -> Result<MonitorView, DecodeErrorView> {
    |v: ValueView| spec_monitor(v)
}

/// The reply to a request for the monitors: an array of them.
pub open spec fn spec_monitors(v: ValueView) -> Result<Seq<MonitorView>, DecodeErrorView> {
    match spec_array(v, Entity::Monitors, ""@) {
        Err(e) => Err(e),
        Ok(items) => spec_each(items, monitor_decoder()),
    }
}

/// Decodes one monitor of a reply.
pub fn decode_monitor(v: &Value) -> (r: Result<Monitor, DecodeError>)
    ensures
        agrees(r, spec_monitor(v.deep_view())),
        r matches Ok(monitor) ==> monitor.wf(),
{
    let entity = Entity::Monitor;
    let members = as_object(v, entity, "")?;
    let id = int_field(members, entity, "id", 0, 255)?;
    let name = text_field(members, entity, "name")?;
    let width = int_field(members, entity, "width", 1, 65535)?;
    let height = int_field(members, entity, "height", 1, 65535)?;
    let refresh_rate = number_field(members, entity, "refreshRate")?;
    let x = int_field(members, entity, "x", -2147483648i64, 2147483647)?;
    let y = int_field(members, entity, "y", -2147483648i64, 2147483647)?;
    let active_workspace = decode_workspace_basic(required(members, entity, "activeWorkspace")?)?;
    let reserved = quad_field(members, entity, "reserved", 0, 255)?;
    let scale = number_field(members, entity, "scale")?;
    let code = int_field(members, entity, "transform", i64::MIN, i64::MAX)?;
    let transform = decode_transform(code)?;
    let focused = bool_field(members, entity, "focused")?;
    Ok(
        Monitor {
            id: id as u8,
            name,
            width: width as u16,
            height: height as u16,
            refresh_rate,
            x: x as i32,
            y: y as i32,
            active_workspace,
            reserved: (reserved.0 as u8, reserved.1 as u8, reserved.2 as u8, reserved.3 as u8),
            scale,
            transform,
            focused,
        },
    )
}

/// Decodes the reply to a request for the monitors.
pub fn decode_monitors(payload: &Value) -> (r: Result<Vec<Monitor>, DecodeError>)
    ensures
        agrees(r, spec_monitors(payload.deep_view())),
        r matches Ok(monitors) ==> forall|k: int|
            0 <= k < monitors.len() ==> (#[trigger] monitors[k]).wf(),
{
    let items = as_array(payload, Entity::Monitors, "")?;
    let ghost all = items.deep_view();
    let ghost decode = monitor_decoder();
    let mut out: Vec<Monitor> = Vec::new();
    let mut i: usize = 0;
    proof {
        lemma_each_start(all, decode);
        assert(out.deep_view() =~= Seq::empty());
    }
    while i < items.len()
        invariant
            i <= items.len(),
            all == items.deep_view(),
            decode == monitor_decoder(),
            spec_monitors(payload.deep_view()) == spec_each(all, decode),
            spec_each(all, decode) == after(out.deep_view(), spec_each(all.skip(i as int), decode)),
            forall|k: int| 0 <= k < out.len() ==> (#[trigger] out[k]).wf(),
        decreases items.len() - i,
    {
        let ghost before = out.deep_view();
        proof {
            lemma_each_step(all, decode, before, i as int);
        }
        let item = decode_monitor(&items[i])?;
        let ghost item_view = item.deep_view();
        out.push(item);
        proof {
            assert(out.deep_view() =~= before.push(item_view));
        }
        i += 1;
    }
    proof {
        lemma_each_end(all, decode, out.deep_view());
    }
    Ok(out)
}

} // verus!
