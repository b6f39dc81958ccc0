//! Layer surfaces: per output, per level, in the order of their stacking.

use crate::client::Address;
use crate::error::{agrees, DecodeError, DecodeErrorView, Entity};
use crate::mapping::{
    contains_key, distinct_keys, entry, get_entry, law_entries_distinct,
    lemma_entries_prefix_error, spec_entries,
};
use crate::read::{
    after, as_array, as_object, int_field, lemma_each_end, lemma_each_start, lemma_each_step,
    required, spec_array, spec_each, spec_int_field, spec_object, spec_required, spec_text_field,
    text_field,
};
use crate::value::{Member, Value, ValueView};
use vstd::prelude::*;

verus! {

/// One layer surface: a bar, a notification, a wallpaper.
#[derive(Debug, Clone, PartialEq, Eq)]
pub struct LayerClient {
    pub address: Address,
    pub x: i32,
    pub y: i32,
    /// The width.
    pub w: u16,
    /// The height.
    pub h: u16,
    /// The name by which the owner of the surface calls it.
    pub namespace: String,
}

/// The mathematical model of a [`LayerClient`].
pub struct LayerClientView {
    pub address: Seq<char>,
    pub x: i32,
    pub y: i32,
    pub w: u16,
    pub h: u16,
    pub namespace: Seq<char>,
}

impl DeepView for LayerClient {
    type V = LayerClientView;

    open spec fn deep_view(&self) -> LayerClientView {
        LayerClientView {
            address: self.address.deep_view(),
            x: self.x,
            y: self.y,
            w: self.w,
            h: self.h,
            namespace: self.namespace@,
        }
    }
}

/// The layer surfaces of one output: for each level its surfaces, in the
/// order of their stacking. No level stands twice.
#[derive(Debug, Clone, PartialEq, Eq)]
pub struct LayerDisplay {
    pub levels: Vec<(String, Vec<LayerClient>)>,
}

/// The mathematical model of a [`LayerDisplay`].
pub struct LayerDisplayView {
    pub levels: Seq<(Seq<char>, Seq<LayerClientView>)>,
}

impl DeepView for LayerDisplay {
    type V = LayerDisplayView;

    open spec fn deep_view(&self) -> LayerDisplayView {
        LayerDisplayView { levels: self.levels.deep_view() }
    }
}

/// The layer surfaces of every output. No output stands twice.
#[derive(Debug, Clone, PartialEq, Eq)]
pub struct Layers {
    pub displays: Vec<(String, LayerDisplay)>,
}

/// The mathematical model of a [`Layers`].
pub struct LayersView {
    pub displays: Seq<(Seq<char>, LayerDisplayView)>,
}

impl DeepView for Layers {
    type V = LayersView;

    open spec fn deep_view(&self) -> LayersView {
        LayersView { displays: self.displays.deep_view() }
    }
}

/// A layer surface as an object holds it: `address`, `x`, `y`, `w`, `h`,
/// `namespace`.
pub open spec fn spec_layer_client(v: ValueView) -> Result<LayerClientView, DecodeErrorView> {
    let entity = Entity::LayerClient;
    let object = spec_object(v, entity, ""@);
    let members = object->Ok_0;
    let address = spec_text_field(members, entity, "address"@);
    let x = spec_int_field(members, entity, "x"@, -2147483648i64, 2147483647);
    let y = spec_int_field(members, entity, "y"@, -2147483648i64, 2147483647);
    let w = spec_int_field(members, entity, "w"@, 0, 65535);
    let h = spec_int_field(members, entity, "h"@, 0, 65535);
    let namespace = spec_text_field(members, entity, "namespace"@);
    if object is Err {
        Err(object->Err_0)
    } else if address is Err {
        Err(address->Err_0)
    } else if x is Err {
        Err(x->Err_0)
    } else if y is Err {
        Err(y->Err_0)
    } else if w is Err {
        Err(w->Err_0)
    } else if h is Err {
        Err(h->Err_0)
    } else if namespace is Err {
        Err(namespace->Err_0)
    } else {
        Ok(
            LayerClientView {
                address: address->Ok_0,
                x: x->Ok_0 as i32,
                y: y->Ok_0 as i32,
                w: w->Ok_0 as u16,
                h: h->Ok_0 as u16,
                namespace: namespace->Ok_0,
            },
        )
    }
}

/// The decoder of one surface of a level.
pub open spec fn layer_client_decoder() -> spec_fn(ValueView) -> Result<
    LayerClientView,
    DecodeErrorView,
> {
    |v: ValueView| spec_layer_client(v)
}

/// One level as the wire holds it: the array of its surfaces, kept in the
/// order in which they stand.
pub open spec fn spec_level(v: ValueView) -> Result<Seq<LayerClientView>, DecodeErrorView> {
    match spec_array(v, Entity::LayerDisplay, "levels"@) {
        Err(e) => Err(e),
        Ok(items) => spec_each(items, layer_client_decoder()),
    }
}

/// The decoder of one level of an output.
pub open spec fn level_decoder() -> spec_fn(ValueView) -> Result<
    Seq<LayerClientView>,
    DecodeErrorView,
> {
    |v: ValueView| spec_level(v)
}

/// One output as the wire holds it: an object whose member `levels` maps
/// each level to its surfaces.
pub open spec fn spec_layer_display(v: ValueView) -> Result<LayerDisplayView, DecodeErrorView> {
    let entity = Entity::LayerDisplay;
    let object = spec_object(v, entity, ""@);
    let held = spec_required(object->Ok_0, entity, "levels"@);
    let members = spec_object(held->Ok_0, entity, "levels"@);
    let levels = spec_entries(members->Ok_0, level_decoder());
    if object is Err {
        Err(object->Err_0)
    } else if held is Err {
        Err(held->Err_0)
    } else if members is Err {
        Err(members->Err_0)
    } else if levels is Err {
        Err(levels->Err_0)
    } else {
        Ok(LayerDisplayView { levels: levels->Ok_0 })
    }
}

/// The decoder of one output of the layers.
pub open spec fn layer_display_decoder() -> spec_fn(ValueView) -> Result<
    LayerDisplayView,
    DecodeErrorView,
> {
    |v: ValueView| spec_layer_display(v)
}

/// The reply to a request for the layers: an object that maps each output
/// to its layer surfaces.
pub open spec fn spec_layers(v: ValueView) -> Result<LayersView, DecodeErrorView> {
    let object = spec_object(v, Entity::Layers, ""@);
    let displays = spec_entries(object->Ok_0, layer_display_decoder());
    if object is Err {
        Err(object->Err_0)
    } else if displays is Err {
        Err(displays->Err_0)
    } else {
        Ok(LayersView { displays: displays->Ok_0 })
    }
}

impl LayerDisplay {
    /// Whether no level stands twice.
    pub open spec fn wf(&self) -> bool {
        distinct_keys(self.deep_view().levels)
    }

    /// The surfaces of the level `name`, in the order of their stacking.
    pub fn level(&self, name: &str) -> (found: Option<&Vec<LayerClient>>)
        ensures
            found.deep_view() == entry(self.deep_view().levels, name@),
    {
        get_entry(&self.levels, name)
    }
}

impl Layers {
    /// Whether no output stands twice, and no level of an output.
    pub open spec fn wf(&self) -> bool {
        &&& distinct_keys(self.deep_view().displays)
        &&& forall|k: int| 0 <= k < self.displays.len() ==> (#[trigger] self.displays[k]).1.wf()
    }

    /// The layer surfaces of the output `name`.
    pub fn display(&self, name: &str) -> (found: Option<&LayerDisplay>)
        ensures
            found.deep_view() == entry(self.deep_view().displays, name@),
    {
        get_entry(&self.displays, name)
    }
}

/// Decodes one layer surface.
pub fn decode_layer_client(v: &Value) -> (r: Result<LayerClient, DecodeError>)
    ensures
        agrees(r, spec_layer_client(v.deep_view())),
{
    let entity = Entity::LayerClient;
    let members = as_object(v, entity, "")?;
    let address = text_field(members, entity, "address")?;
    let x = int_field(members, entity, "x", -2147483648i64, 2147483647)?;
    let y = int_field(members, entity, "y", -2147483648i64, 2147483647)?;
    let w = int_field(members, entity, "w", 0, 65535)?;
    let h = int_field(members, entity, "h", 0, 65535)?;
    let namespace = text_field(members, entity, "namespace")?;
    Ok(
        LayerClient {
            address: Address(address),
            x: x as i32,
            y: y as i32,
            w: w as u16,
            h: h as u16,
            namespace,
        },
    )
}

/// Decodes the surfaces of one level, keeping their order.
pub fn decode_level(v: &Value) -> (r: Result<Vec<LayerClient>, DecodeError>)
    ensures
        agrees(r, spec_level(v.deep_view())),
{
    let items = as_array(v, Entity::LayerDisplay, "levels")?;
    let ghost all = items.deep_view();
    let ghost decode = layer_client_decoder();
    let mut out: Vec<LayerClient> = Vec::new();
    let mut i: usize = 0;
    proof {
        lemma_each_start(all, decode);
        assert(out.deep_view() =~= Seq::empty());
    }
    while i < items.len()
        invariant
            i <= items.len(),
            all == items.deep_view(),
            decode == layer_client_decoder(),
            spec_level(v.deep_view()) == spec_each(all, decode),
            spec_each(all, decode) == after(out.deep_view(), spec_each(all.skip(i as int), decode)),
        decreases items.len() - i,
    {
        let ghost before = out.deep_view();
        proof {
            lemma_each_step(all, decode, before, i as int);
        }
        let item = decode_layer_client(&items[i])?;
        let ghost item_view = item.deep_view();
        out.push(item);
        proof {
            assert(out.deep_view() =~= before.push(item_view));
        }
        i += 1;
    }
    proof {
        lemma_each_end(all, decode, out.deep_view());
    }
    Ok(out)
}

/// Decodes the levels of one output from the members that hold them.
fn decode_levels(members: &Vec<Member>) -> (r: Result<Vec<(String, Vec<LayerClient>)>, DecodeError>)
    ensures
        agrees(r, spec_entries(members.deep_view(), level_decoder())),
{
    let ghost all = members.deep_view();
    let ghost decode = level_decoder();
    let mut out: Vec<(String, Vec<LayerClient>)> = Vec::new();
    let mut i: usize = 0;
    proof {
        assert(all.take(0) =~= Seq::empty());
        assert(out.deep_view() =~= Seq::empty());
    }
    while i < members.len()
        invariant
            i <= members.len(),
            all == members.deep_view(),
            decode == level_decoder(),
            spec_entries(all.take(i as int), decode) == Ok::<
                Seq<(Seq<char>, Seq<LayerClientView>)>,
                DecodeErrorView,
            >(out.deep_view()),
        decreases members.len() - i,
    {
        let ghost before = out.deep_view();
        proof {
            assert(all.take(i as int + 1).drop_last() =~= all.take(i as int));
            assert(all.take(i as int + 1).last() == members@[i as int].deep_view());
        }
        match decode_level(&members[i].value) {
            Err(e) => {
                proof {
                    lemma_entries_prefix_error(all, decode, i as int + 1);
                }
                return Err(e);
            },
            Ok(clients) => {
                if !contains_key(&out, members[i].key.as_str()) {
                    let ghost held = clients.deep_view();
                    out.push((members[i].key.clone(), clients));
                    proof {
                        assert(out.deep_view() =~= before.push((members@[i as int].key@, held)));
                    }
                }
            },
        }
        i += 1;
    }
    proof {
        assert(all.take(i as int) =~= all);
    }
    Ok(out)
}

/// Decodes the layer surfaces of one output.
pub fn decode_layer_display(v: &Value) -> (r: Result<LayerDisplay, DecodeError>)
    ensures
        agrees(r, spec_layer_display(v.deep_view())),
        r matches Ok(display) ==> display.wf(),
{
    let entity = Entity::LayerDisplay;
    let object = as_object(v, entity, "")?;
    let held = required(object, entity, "levels")?;
    let members = as_object(held, entity, "levels")?;
    let levels = decode_levels(members)?;
    proof {
        law_entries_distinct(members.deep_view(), level_decoder());
    }
    Ok(LayerDisplay { levels })
}

/// Decodes the reply to a request for the layers.
pub fn decode_layers(payload: &Value) -> (r: Result<Layers, DecodeError>)
    ensures
        agrees(r, spec_layers(payload.deep_view())),
        r matches Ok(layers) ==> layers.wf(),
{
    let members = as_object(payload, Entity::Layers, "")?;
    let ghost all = members.deep_view();
    let ghost decode = layer_display_decoder();
    let mut out: Vec<(String, LayerDisplay)> = Vec::new();
    let mut i: usize = 0;
    proof {
        assert(all.take(0) =~= Seq::empty());
        assert(out.deep_view() =~= Seq::empty());
    }
    while i < members.len()
        invariant
            i <= members.len(),
            all == members.deep_view(),
            decode == layer_display_decoder(),
            spec_object(payload.deep_view(), Entity::Layers, ""@) == Ok::<
                Seq<crate::value::MemberView>,
                DecodeErrorView,
            >(all),
            spec_entries(all.take(i as int), decode) == Ok::<
                Seq<(Seq<char>, LayerDisplayView)>,
                DecodeErrorView,
            >(out.deep_view()),
            forall|k: int| 0 <= k < out.len() ==> (#[trigger] out[k]).1.wf(),
        decreases members.len() - i,
    {
        let ghost before = out.deep_view();
        proof {
            assert(all.take(i as int + 1).drop_last() =~= all.take(i as int));
            assert(all.take(i as int + 1).last() == members@[i as int].deep_view());
        }
        match decode_layer_display(&members[i].value) {
            Err(e) => {
                proof {
                    lemma_entries_prefix_error(all, decode, i as int + 1);
                }
                return Err(e);
            },
            Ok(display) => {
                if !contains_key(&out, members[i].key.as_str()) {
                    let ghost held = display.deep_view();
                    out.push((members[i].key.clone(), display));
                    proof {
                        assert(out.deep_view() =~= before.push((members@[i as int].key@, held)));
                    }
                }
            },
        }
        i += 1;
    }
    proof {
        assert(all.take(i as int) =~= all);
        law_entries_distinct(all, decode);
    }
    Ok(Layers { displays: out })
}

} // verus!
