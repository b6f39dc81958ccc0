//! Input devices: mice, keyboards and tablets.

use crate::client::Address;
use crate::error::{
    agrees, DecodeError, DecodeErrorView, Discriminant, DiscriminantView, Entity,
};
use crate::read::{
    after, array_field, as_object, as_text, lemma_each_end, lemma_each_start, lemma_each_step,
    optional, optional_text_field, spec_array_field, spec_each, spec_object, spec_optional,
    spec_optional_text_field, spec_text, spec_text_field, text_field,
};
use crate::value::{str_eq, Value, ValueView};
use vstd::prelude::*;

verus! {

/// A mouse.
#[derive(Debug, Clone, PartialEq, Eq)]
pub struct Mouse {
    pub address: Address,
    pub name: String,
}

/// The mathematical model of a [`Mouse`].
pub struct MouseView {
    pub address: Seq<char>,
    pub name: Seq<char>,
}

impl DeepView for Mouse {
    type V = MouseView;

    open spec fn deep_view(&self) -> MouseView {
        MouseView { address: self.address.deep_view(), name: self.name@ }
    }
}

/// A keyboard, with the settings of its keymap.
#[derive(Debug, Clone, PartialEq, Eq)]
pub struct Keyboard {
    pub address: Address,
    pub name: String,
    pub rules: String,
    pub model: String,
    pub layout: String,
    pub variant: String,
    pub options: String,
    pub active_keymap: String,
}

/// The mathematical model of a [`Keyboard`].
pub struct KeyboardView {
    pub address: Seq<char>,
    pub name: Seq<char>,
    pub rules: Seq<char>,
    pub model: Seq<char>,
    pub layout: Seq<char>,
    pub variant: Seq<char>,
    pub options: Seq<char>,
    pub active_keymap: Seq<char>,
}

impl DeepView for Keyboard {
    type V = KeyboardView;

    open spec fn deep_view(&self) -> KeyboardView {
        KeyboardView {
            address: self.address.deep_view(),
            name: self.name@,
            rules: self.rules@,
            model: self.model@,
            layout: self.layout@,
            variant: self.variant@,
            options: self.options@,
            active_keymap: self.active_keymap@,
        }
    }
}

/// What kind of tablet device an entry is.
#[derive(Debug, Clone, Copy, PartialEq, Eq)]
pub enum TabletType {
    TabletPad,
    TabletTool,
}

impl DeepView for TabletType {
    type V = TabletType;

    open spec fn deep_view(&self) -> TabletType {
        *self
    }
}

/// What a tablet device belongs to. The shape goes by the type of the
/// device: a pad names its parent, a tool only gives an address.
#[derive(Debug, Clone, PartialEq, Eq)]
pub enum TabletBelongsTo {
    TabletPad { name: String, address: Address },
    Address(Address),
}

/// The mathematical model of a [`TabletBelongsTo`].
pub enum TabletBelongsToView {
    TabletPad { name: Seq<char>, address: Seq<char> },
    Address(Seq<char>),
}

impl DeepView for TabletBelongsTo {
    type V = TabletBelongsToView;

    open spec fn deep_view(&self) -> TabletBelongsToView {
        match self {
            TabletBelongsTo::TabletPad { name, address } => TabletBelongsToView::TabletPad {
                name: name@,
                address: address.deep_view(),
            },
            TabletBelongsTo::Address(address) => TabletBelongsToView::Address(address.deep_view()),
        }
    }
}

/// A tablet device. Some report neither a type nor what they belong to.
#[derive(Debug, Clone, PartialEq, Eq)]
pub struct Tablet {
    pub address: Address,
    pub tablet_type: Option<TabletType>,
    pub belongs_to: Option<TabletBelongsTo>,
    pub name: Option<String>,
}

/// The mathematical model of a [`Tablet`].
pub struct TabletView {
    pub address: Seq<char>,
    pub tablet_type: Option<TabletType>,
    pub belongs_to: Option<TabletBelongsToView>,
    pub name: Option<Seq<char>>,
}

impl DeepView for Tablet {
    type V = TabletView;

    open spec fn deep_view(&self) -> TabletView {
        TabletView {
            address: self.address.deep_view(),
            tablet_type: self.tablet_type,
            belongs_to: self.belongs_to.deep_view(),
            name: self.name.deep_view(),
        }
    }
}

/// All input devices.
#[derive(Debug, Clone, PartialEq, Eq)]
pub struct Devices {
    pub mice: Vec<Mouse>,
    pub keyboards: Vec<Keyboard>,
    pub tablets: Vec<Tablet>,
}

/// The mathematical model of a [`Devices`].
pub struct DevicesView {
    pub mice: Seq<MouseView>,
    pub keyboards: Seq<KeyboardView>,
    pub tablets: Seq<TabletView>,
}

impl DeepView for Devices {
    type V = DevicesView;

    open spec fn deep_view(&self) -> DevicesView {
        DevicesView {
            mice: self.mice.deep_view(),
            keyboards: self.keyboards.deep_view(),
            tablets: self.tablets.deep_view(),
        }
    }
}

/// A mouse as an object holds it: `address`, `name`.
pub open spec fn spec_mouse(v: ValueView) -> Result<MouseView, DecodeErrorView> {
    let entity = Entity::Mouse;
    let object = spec_object(v, entity, ""@);
    let members = object->Ok_0;
    let address = spec_text_field(members, entity, "address"@);
    let name = spec_text_field(members, entity, "name"@);
    if object is Err {
        Err(object->Err_0)
    } else if address is Err {
        Err(address->Err_0)
    } else if name is Err {
        Err(name->Err_0)
    } else {
        Ok(MouseView { address: address->Ok_0, name: name->Ok_0 })
    }
}

/// A keyboard as an object holds it: `address`, `name`, `rules`, `model`,
/// `layout`, `variant`, `options`, `active_keymap`.
pub open spec fn spec_keyboard(v: ValueView) -> Result<KeyboardView, DecodeErrorView> {
    let entity = Entity::Keyboard;
    let object = spec_object(v, entity, ""@);
    let members = object->Ok_0;
    let address = spec_text_field(members, entity, "address"@);
    let name = spec_text_field(members, entity, "name"@);
    let rules = spec_text_field(members, entity, "rules"@);
    let model = spec_text_field(members, entity, "model"@);
    let layout = spec_text_field(members, entity, "layout"@);
    let variant = spec_text_field(members, entity, "variant"@);
    let options = spec_text_field(members, entity, "options"@);
    let active_keymap = spec_text_field(members, entity, "active_keymap"@);
    if object is Err {
        Err(object->Err_0)
    } else if address is Err {
        Err(address->Err_0)
    } else if name is Err {
        Err(name->Err_0)
    } else if rules is Err {
        Err(rules->Err_0)
    } else if model is Err {
        Err(model->Err_0)
    } else if layout is Err {
        Err(layout->Err_0)
    } else if variant is Err {
        Err(variant->Err_0)
    } else if options is Err {
        Err(options->Err_0)
    } else if active_keymap is Err {
        Err(active_keymap->Err_0)
    } else {
        Ok(
            KeyboardView {
                address: address->Ok_0,
                name: name->Ok_0,
                rules: rules->Ok_0,
                model: model->Ok_0,
                layout: layout->Ok_0,
                variant: variant->Ok_0,
                options: options->Ok_0,
                active_keymap: active_keymap->Ok_0,
            },
        )
    }
}

/// The type that a tag names: `tabletPad` or `tabletTool`, and no other.
pub open spec fn spec_tablet_type(tag: Seq<char>) -> Result<TabletType, DecodeErrorView> {
    if tag == "tabletPad"@ {
        Ok(TabletType::TabletPad)
    } else if tag == "tabletTool"@ {
        Ok(TabletType::TabletTool)
    } else {
        Err(
            DecodeErrorView::UnknownVariant {
                entity: Entity::Tablet,
                field: "type"@,
                value: DiscriminantView::Tag(tag),
            },
        )
    }
}

/// The member `type` of a tablet: none where it is absent or null.
pub open spec fn spec_tablet_type_field(members: Seq<crate::value::MemberView>) -> Result<
    Option<TabletType>,
    DecodeErrorView,
> {
    match spec_optional(members, "type"@) {
        None => Ok(None),
        Some(v) => match spec_text(v, Entity::Tablet, "type"@) {
            Err(e) => Err(e),
            Ok(tag) => match spec_tablet_type(tag) {
                Err(e) => Err(e),
                Ok(tablet_type) => Ok(Some(tablet_type)),
            },
        },
    }
}

/// What `v` says a device of type `tablet_type` belongs to: for a pad an
/// object with `name` and `address`, for a tool a bare address.
pub open spec fn spec_belongs_to(v: ValueView, tablet_type: TabletType) -> Result<
    TabletBelongsToView,
    DecodeErrorView,
> {
    match tablet_type {
        TabletType::TabletPad => {
            let entity = Entity::TabletBelongsTo;
            let object = spec_object(v, Entity::Tablet, "belongsTo"@);
            let members = object->Ok_0;
            let name = spec_text_field(members, entity, "name"@);
            let address = spec_text_field(members, entity, "address"@);
            if object is Err {
                Err(object->Err_0)
            } else if name is Err {
                Err(name->Err_0)
            } else if address is Err {
                Err(address->Err_0)
            } else {
                Ok(TabletBelongsToView::TabletPad { name: name->Ok_0, address: address->Ok_0 })
            }
        },
        TabletType::TabletTool => match spec_text(v, Entity::Tablet, "belongsTo"@) {
            Err(e) => Err(e),
            Ok(address) => Ok(TabletBelongsToView::Address(address)),
        },
    }
}

/// The member `belongsTo` of a tablet whose type is `tablet_type`: none
/// where it is absent or null. Where it is there, the type decides its
/// shape, so a tablet without a type cannot have it.
pub open spec fn spec_belongs_to_field(
    members: Seq<crate::value::MemberView>,
    tablet_type: Option<TabletType>,
) -> Result<Option<TabletBelongsToView>, DecodeErrorView> {
    match spec_optional(members, "belongsTo"@) {
        None => Ok(None),
        Some(v) => match tablet_type {
            None => Err(DecodeErrorView::MissingField { entity: Entity::Tablet, field: "type"@ }),
            Some(known) => match spec_belongs_to(v, known) {
                Err(e) => Err(e),
                Ok(owner) => Ok(Some(owner)),
            },
        },
    }
}

/// A tablet as an object holds it: `address`, then `type`, `belongsTo` and
/// `name`, each of which may be absent.
pub open spec fn spec_tablet(v: ValueView) -> Result<TabletView, DecodeErrorView> {
    let entity = Entity::Tablet;
    let object = spec_object(v, entity, ""@);
    let members = object->Ok_0;
    let address = spec_text_field(members, entity, "address"@);
    let tablet_type = spec_tablet_type_field(members);
    let belongs_to = spec_belongs_to_field(members, tablet_type->Ok_0);
    let name = spec_optional_text_field(members, entity, "name"@);
    if object is Err {
        Err(object->Err_0)
    } else if address is Err {
        Err(address->Err_0)
    } else if tablet_type is Err {
        Err(tablet_type->Err_0)
    } else if belongs_to is Err {
        Err(belongs_to->Err_0)
    } else if name is Err {
        Err(name->Err_0)
    } else {
        Ok(
            TabletView {
                address: address->Ok_0,
                tablet_type: tablet_type->Ok_0,
                belongs_to: belongs_to->Ok_0,
                name: name->Ok_0,
            },
        )
    }
}

/// The decoder of one item of the mice.
pub open spec fn mouse_decoder() -> spec_fn(ValueView) -> Result<MouseView, DecodeErrorView> {
    |v: ValueView| spec_mouse(v)
}

/// The decoder of one item of the keyboards.
pub open spec fn keyboard_decoder() -> spec_fn(ValueView) -> Result<KeyboardView, DecodeErrorView> {
    |v: ValueView| spec_keyboard(v)
}

/// The decoder of one item of the tablets.
pub open spec fn tablet_decoder() -> spec_fn(ValueView) -> Result<TabletView, DecodeErrorView> {
    |v: ValueView| spec_tablet(v)
}

/// The reply to a request for the devices: an object with the arrays
/// `mice`, `keyboards` and `tablets`.
pub open spec fn spec_devices(v: ValueView) -> Result<DevicesView, DecodeErrorView> {
    let entity = Entity::Devices;
    let object = spec_object(v, entity, ""@);
    let members = object->Ok_0;
    let mouse_items = spec_array_field(members, entity, "mice"@);
    let mice = spec_each(mouse_items->Ok_0, mouse_decoder());
    let keyboard_items = spec_array_field(members, entity, "keyboards"@);
    let keyboards = spec_each(keyboard_items->Ok_0, keyboard_decoder());
    let tablet_items = spec_array_field(members, entity, "tablets"@);
    let tablets = spec_each(tablet_items->Ok_0, tablet_decoder());
    if object is Err {
        Err(object->Err_0)
    } else if mouse_items is Err {
        Err(mouse_items->Err_0)
    } else if mice is Err {
        Err(mice->Err_0)
    } else if keyboard_items is Err {
        Err(keyboard_items->Err_0)
    } else if keyboards is Err {
        Err(keyboards->Err_0)
    } else if tablet_items is Err {
        Err(tablet_items->Err_0)
    } else if tablets is Err {
        Err(tablets->Err_0)
    } else {
        Ok(DevicesView { mice: mice->Ok_0, keyboards: keyboards->Ok_0, tablets: tablets->Ok_0 })
    }
}

/// Decodes one mouse.
pub fn decode_mouse(v: &Value) -> (r: Result<Mouse, DecodeError>)
    ensures
        agrees(r, spec_mouse(v.deep_view())),
{
    let entity = Entity::Mouse;
    let members = as_object(v, entity, "")?;
    let address = text_field(members, entity, "address")?;
    let name = text_field(members, entity, "name")?;
    Ok(Mouse { address: Address(address), name })
}

/// Decodes one keyboard.
pub fn decode_keyboard(v: &Value) -> (r: Result<Keyboard, DecodeError>)
    ensures
        agrees(r, spec_keyboard(v.deep_view())),
{
    let entity = Entity::Keyboard;
    let members = as_object(v, entity, "")?;
    let address = text_field(members, entity, "address")?;
    let name = text_field(members, entity, "name")?;
    let rules = text_field(members, entity, "rules")?;
    let model = text_field(members, entity, "model")?;
    let layout = text_field(members, entity, "layout")?;
    let variant = text_field(members, entity, "variant")?;
    let options = text_field(members, entity, "options")?;
    let active_keymap = text_field(members, entity, "active_keymap")?;
    Ok(
        Keyboard {
            address: Address(address),
            name,
            rules,
            model,
            layout,
            variant,
            options,
            active_keymap,
        },
    )
}

/// Reads a tag as a tablet type. No tag but the two known ones is accepted.
pub fn decode_tablet_type(tag: &str) -> (r: Result<TabletType, DecodeError>)
    ensures
        agrees(r, spec_tablet_type(tag@)),
        r is Ok <==> tag@ == "tabletPad"@ || tag@ == "tabletTool"@,
{
    if str_eq(tag, "tabletPad") {
        Ok(TabletType::TabletPad)
    } else if str_eq(tag, "tabletTool") {
        Ok(TabletType::TabletTool)
    } else {
        Err(
            DecodeError::UnknownVariant {
                entity: Entity::Tablet,
                field: "type",
                value: Discriminant::Tag(tag.to_owned()),
            },
        )
    }
}

/// Decodes what a device of type `tablet_type` belongs to.
pub fn decode_belongs_to(v: &Value, tablet_type: TabletType) -> (r: Result<
    TabletBelongsTo,
    DecodeError,
>)
    ensures
        agrees(r, spec_belongs_to(v.deep_view(), tablet_type)),
{
    match tablet_type {
        TabletType::TabletPad => {
            let entity = Entity::TabletBelongsTo;
            let members = as_object(v, Entity::Tablet, "belongsTo")?;
            let name = text_field(members, entity, "name")?;
            let address = text_field(members, entity, "address")?;
            Ok(TabletBelongsTo::TabletPad { name, address: Address(address) })
        },
        TabletType::TabletTool => {
            let address = as_text(v, Entity::Tablet, "belongsTo")?;
            Ok(TabletBelongsTo::Address(Address(address)))
        },
    }
}

/// Decodes one tablet.
pub fn decode_tablet(v: &Value) -> (r: Result<Tablet, DecodeError>)
    ensures
        agrees(r, spec_tablet(v.deep_view())),
{
    let entity = Entity::Tablet;
    let members = as_object(v, entity, "")?;
    let address = text_field(members, entity, "address")?;
    let tablet_type = match optional(members, "type") {
        None => None,
        Some(held) => {
            let tag = as_text(held, entity, "type")?;
            Some(decode_tablet_type(tag.as_str())?)
        },
    };
    let belongs_to = match optional(members, "belongsTo") {
        None => None,
        Some(held) => match tablet_type {
            None => {
                return Err(DecodeError::MissingField { entity, field: "type" });
            },
            Some(known) => Some(decode_belongs_to(held, known)?),
        },
    };
    let name = optional_text_field(members, entity, "name")?;
    Ok(Tablet { address: Address(address), tablet_type, belongs_to, name })
}

/// Decodes the reply to a request for the devices.
pub fn decode_devices(payload: &Value) -> (r: Result<Devices, DecodeError>)
    ensures
        agrees(r, spec_devices(payload.deep_view())),
{
    let entity = Entity::Devices;
    let members = as_object(payload, entity, "")?;
    let mouse_items = array_field(members, entity, "mice")?;
    let mice = decode_mice(mouse_items)?;
    let keyboard_items = array_field(members, entity, "keyboards")?;
    let keyboards = decode_keyboards(keyboard_items)?;
    let tablet_items = array_field(members, entity, "tablets")?;
    let tablets = decode_tablets(tablet_items)?;
    Ok(Devices { mice, keyboards, tablets })
}

/// Decodes the items of the array `mice`.
pub fn decode_mice(items: &Vec<Value>) -> (r: Result<Vec<Mouse>, DecodeError>)
    ensures
        agrees(r, spec_each(items.deep_view(), mouse_decoder())),
{
    let ghost all = items.deep_view();
    let ghost decode = mouse_decoder();
    let mut out: Vec<Mouse> = Vec::new();
    let mut i: usize = 0;
    proof {
        lemma_each_start(all, decode);
        assert(out.deep_view() =~= Seq::empty());
    }
    while i < items.len()
        invariant
            i <= items.len(),
            all == items.deep_view(),
            decode == mouse_decoder(),
            spec_each(all, decode) == after(out.deep_view(), spec_each(all.skip(i as int), decode)),
        decreases items.len() - i,
    {
        let ghost before = out.deep_view();
        proof {
            lemma_each_step(all, decode, before, i as int);
        }
        let item = decode_mouse(&items[i])?;
        let ghost item_view = item.deep_view();
        out.push(item);
        proof {
            assert(out.deep_view() =~= before.push(item_view));
        }
        i += 1;
    }
    proof {
        lemma_each_end(all, decode, out.deep_view());
    }
    Ok(out)
}

/// Decodes the items of the array `keyboards`.
pub fn decode_keyboards(items: &Vec<Value>) -> (r: Result<Vec<Keyboard>, DecodeError>)
    ensures
        agrees(r, spec_each(items.deep_view(), keyboard_decoder())),
{
    let ghost all = items.deep_view();
    let ghost decode = keyboard_decoder();
    let mut out: Vec<Keyboard> = Vec::new();
    let mut i: usize = 0;
    proof {
        lemma_each_start(all, decode);
        assert(out.deep_view() =~= Seq::empty());
    }
    while i < items.len()
        invariant
            i <= items.len(),
            all == items.deep_view(),
            decode == keyboard_decoder(),
            spec_each(all, decode) == after(out.deep_view(), spec_each(all.skip(i as int), decode)),
        decreases items.len() - i,
    {
        let ghost before = out.deep_view();
        proof {
            lemma_each_step(all, decode, before, i as int);
        }
        let item = decode_keyboard(&items[i])?;
        let ghost item_view = item.deep_view();
        out.push(item);
        proof {
            assert(out.deep_view() =~= before.push(item_view));
        }
        i += 1;
    }
    proof {
        lemma_each_end(all, decode, out.deep_view());
    }
    Ok(out)
}

/// Decodes the items of the array `tablets`.
pub fn decode_tablets(items: &Vec<Value>) -> (r: Result<Vec<Tablet>, DecodeError>)
    ensures
        agrees(r, spec_each(items.deep_view(), tablet_decoder())),
{
    let ghost all = items.deep_view();
    let ghost decode = tablet_decoder();
    let mut out: Vec<Tablet> = Vec::new();
    let mut i: usize = 0;
    proof {
        lemma_each_start(all, decode);
        assert(out.deep_view() =~= Seq::empty());
    }
    while i < items.len()
        invariant
            i <= items.len(),
            all == items.deep_view(),
            decode == tablet_decoder(),
            spec_each(all, decode) == after(out.deep_view(), spec_each(all.skip(i as int), decode)),
        decreases items.len() - i,
    {
        let ghost before = out.deep_view();
        proof {
            lemma_each_step(all, decode, before, i as int);
        }
        let item = decode_tablet(&items[i])?;
        let ghost item_view = item.deep_view();
        out.push(item);
        proof {
            assert(out.deep_view() =~= before.push(item_view));
        }
        i += 1;
    }
    proof {
        lemma_each_end(all, decode, out.deep_view());
    }
    Ok(out)
}

} // verus!
