//! Windows, and the reply that names the active one.

use crate::error::{agrees, DecodeError, DecodeErrorView, Entity};
use crate::read::{
    after, as_array, as_object, bool_field, int_field, lemma_each_end, lemma_each_start,
    lemma_each_step, pair_field, required, spec_array, spec_bool_field, spec_each, spec_int_field,
    spec_object, spec_pair_field, spec_required, spec_text_field, text_field,
};
use crate::value::{lemma_object_view, Member, Value, ValueView};
use crate::workspace::{
    decode_workspace_basic, spec_workspace_basic, WorkspaceBasic, WorkspaceBasicView,
};
use vstd::prelude::*;

verus! {

/// The token by which the compositor names a window, a layer surface or a
/// device. It is kept as it came and never taken apart.
#[derive(Debug, Clone, PartialEq, Eq, Hash)]
pub struct Address(pub String);

impl DeepView for Address {
    type V = Seq<char>;

    open spec fn deep_view(&self) -> Seq<char> {
        self.0@
    }
}

/// A window.
#[derive(Debug, PartialEq, Eq)]
pub struct Client {
    pub address: Address,
    /// Where the window is: x, then y.
    pub at: (i16, i16),
    /// How large it is: width, then height.
    pub size: (u16, u16),
    pub workspace: WorkspaceBasic,
    pub floating: bool,
    /// The id of the monitor that shows it.
    pub monitor: u8,
    pub class: String,
    pub title: String,
    pub pid: u32,
    /// Whether it runs under the compatibility layer for X11.
    pub xwayland: bool,
}

/// The mathematical model of a [`Client`].
pub struct ClientView {
    pub address: Seq<char>,
    pub at: (i16, i16),
    pub size: (u16, u16),
    pub workspace: WorkspaceBasicView,
    pub floating: bool,
    pub monitor: u8,
    pub class: Seq<char>,
    pub title: Seq<char>,
    pub pid: u32,
    pub xwayland: bool,
}

impl DeepView for Client {
    type V = ClientView;

    open spec fn deep_view(&self) -> ClientView {
        ClientView {
            address: self.address.deep_view(),
            at: self.at,
            size: self.size,
            workspace: self.workspace.deep_view(),
            floating: self.floating,
            monitor: self.monitor,
            class: self.class@,
            title: self.title@,
            pid: self.pid,
            xwayland: self.xwayland,
        }
    }
}

impl Clone for Client {
    fn clone(&self) -> (copy: Client)
        ensures
            copy.deep_view() == self.deep_view(),
    {
        Client {
            address: Address(self.address.0.clone()),
            at: (self.at.0, self.at.1),
            size: (self.size.0, self.size.1),
            workspace: WorkspaceBasic {
                id: self.workspace.id,
                name: self.workspace.name.clone(),
            },
            floating: self.floating,
            monitor: self.monitor,
            class: self.class.clone(),
            title: self.title.clone(),
            pid: self.pid,
            xwayland: self.xwayland,
        }
    }
}

/// A window as an object holds it. The members are read in the order
/// `address`, `at`, `size`, `workspace`, `floating`, `monitor`, `class`,
/// `title`, `pid`, `xwayland`, and the first that is missing or ill-shaped
/// gives the error.
pub open spec fn spec_client(v: ValueView) -> Result<ClientView, DecodeErrorView> {
    let entity = Entity::Client;
    let object = spec_object(v, entity, ""@);
    let members = object->Ok_0;
    let address = spec_text_field(members, entity, "address"@);
    let at = spec_pair_field(members, entity, "at"@, -32768i64, 32767);
    let size = spec_pair_field(members, entity, "size"@, 0, 65535);
    let on = spec_required(members, entity, "workspace"@);
    let workspace = spec_workspace_basic(on->Ok_0);
    let floating = spec_bool_field(members, entity, "floating"@);
    let monitor = spec_int_field(members, entity, "monitor"@, 0, 255);
    let class = spec_text_field(members, entity, "class"@);
    let title = spec_text_field(members, entity, "title"@);
    let pid = spec_int_field(members, entity, "pid"@, 0, 4294967295);
    let xwayland = spec_bool_field(members, entity, "xwayland"@);
    if object is Err {
        Err(object->Err_0)
    } else if address is Err {
        Err(address->Err_0)
    } else if at is Err {
        Err(at->Err_0)
    } else if size is Err {
        Err(size->Err_0)
    } else if on is Err {
        Err(on->Err_0)
    } else if workspace is Err {
        Err(workspace->Err_0)
    } else if floating is Err {
        Err(floating->Err_0)
    } else if monitor is Err {
        Err(monitor->Err_0)
    } else if class is Err {
        Err(class->Err_0)
    } else if title is Err {
        Err(title->Err_0)
    } else if pid is Err {
        Err(pid->Err_0)
    } else if xwayland is Err {
        Err(xwayland->Err_0)
    } else {
        Ok(
            ClientView {
                address: address->Ok_0,
                at: (at->Ok_0.0 as i16, at->Ok_0.1 as i16),
                size: (size->Ok_0.0 as u16, size->Ok_0.1 as u16),
                workspace: workspace->Ok_0,
                floating: floating->Ok_0,
                monitor: monitor->Ok_0 as u8,
                class: class->Ok_0,
                title: title->Ok_0,
                pid: pid->Ok_0 as u32,
                xwayland: xwayland->Ok_0,
            },
        )
    }
}

/// The decoder of one item of a window list.
pub open spec fn client_decoder() -> spec_fn(ValueView) -> Result<ClientView, DecodeErrorView> {
    |v: ValueView| spec_client(v)
}

/// The reply to a request for the windows: an array of them.
pub open spec fn spec_clients(v: ValueView) -> Result<Seq<ClientView>, DecodeErrorView> {
    match spec_array(v, Entity::Clients, ""@) {
        Err(e) => Err(e),
        Ok(items) => spec_each(items, client_decoder()),
    }
}

/// Decodes one window of a reply.
pub fn decode_client(v: &Value) -> (r: Result<Client, DecodeError>)
    ensures
        agrees(r, spec_client(v.deep_view())),
{
    let entity = Entity::Client;
    let members = as_object(v, entity, "")?;
    let address = text_field(members, entity, "address")?;
    let at = pair_field(members, entity, "at", -32768i64, 32767)?;
    let size = pair_field(members, entity, "size", 0, 65535)?;
    let workspace = decode_workspace_basic(required(members, entity, "workspace")?)?;
    let floating = bool_field(members, entity, "floating")?;
    let monitor = int_field(members, entity, "monitor", 0, 255)?;
    let class = text_field(members, entity, "class")?;
    let title = text_field(members, entity, "title")?;
    let pid = int_field(members, entity, "pid", 0, 4294967295)?;
    let xwayland = bool_field(members, entity, "xwayland")?;
    Ok(
        Client {
            address: Address(address),
            at: (at.0 as i16, at.1 as i16),
            size: (size.0 as u16, size.1 as u16),
            workspace,
            floating,
            monitor: monitor as u8,
            class,
            title,
            pid: pid as u32,
            xwayland,
        },
    )
}

/// Decodes the reply to a request for the windows.
pub fn decode_clients(payload: &Value) -> (r: Result<Vec<Client>, DecodeError>)
    ensures
        agrees(r, spec_clients(payload.deep_view())),
{
    let items = as_array(payload, Entity::Clients, "")?;
    let ghost all = items.deep_view();
    let ghost decode = client_decoder();
    let mut out: Vec<Client> = Vec::new();
    let mut i: usize = 0;
    proof {
        lemma_each_start(all, decode);
        assert(out.deep_view() =~= Seq::empty());
    }
    while i < items.len()
        invariant
            i <= items.len(),
            all == items.deep_view(),
            decode == client_decoder(),
            spec_clients(payload.deep_view()) == spec_each(all, decode),
            spec_each(all, decode) == after(out.deep_view(), spec_each(all.skip(i as int), decode)),
        decreases items.len() - i,
    {
        let ghost before = out.deep_view();
        proof {
            lemma_each_step(all, decode, before, i as int);
        }
        let item = decode_client(&items[i])?;
        let ghost item_view = item.deep_view();
        out.push(item);
        proof {
            assert(out.deep_view() =~= before.push(item_view));
        }
        i += 1;
    }
    proof {
        lemma_each_end(all, decode, out.deep_view());
    }
    Ok(out)
}

/// The object with no member, by which the wire says that there is nothing.
pub open spec fn empty_object() -> ValueView {
    ValueView::Object(Seq::empty())
}

/// What a tree holds when the empty object stands for nothing: nothing for
/// the empty object, the tree itself for every other tree.
pub open spec fn spec_optional_object(v: ValueView) -> Option<ValueView> {
    match v {
        ValueView::Object(members) if members.len() == 0 => None,
        _ => Some(v),
    }
}

/// The tree that says `tree` on the wire: the empty object for nothing.
pub open spec fn spec_encode_optional_object(tree: Option<ValueView>) -> ValueView {
    match tree {
        None => empty_object(),
        Some(v) => v,
    }
}

/// Only the empty object reads as nothing; what the members of an object
/// hold plays no part.
pub proof fn law_optional_object_emptiness(v: ValueView)
    ensures
        spec_optional_object(v) is None <==> v == empty_object(),
        spec_optional_object(v) is Some ==> spec_optional_object(v) == Some(v),
{
    if let ValueView::Object(members) = v {
        if members.len() == 0 {
            assert(members =~= Seq::empty());
        }
    }
}

/// Reading is idempotent: what was read as present reads as present again,
/// and is the same tree.
pub proof fn law_optional_object_idempotent(v: ValueView)
    ensures
        spec_optional_object(v) matches Some(tree) ==> spec_optional_object(tree) == Some(tree),
{
}

/// Nothing is written as the empty object and read back as nothing; a tree
/// that is not the empty object is written as it is and read back as itself.
pub proof fn law_optional_object_round_trip(tree: Option<ValueView>)
    requires
        tree != Some(empty_object()),
    ensures
        spec_encode_optional_object(None) == empty_object(),
        spec_optional_object(spec_encode_optional_object(tree)) == tree,
{
    law_optional_object_emptiness(spec_encode_optional_object(tree));
}

/// Reads a tree in which the empty object stands for nothing.
pub fn decode_optional_object(raw: Value) -> (tree: Option<Value>)
    ensures
        tree.deep_view() == spec_optional_object(raw.deep_view()),
        tree is None <==> raw.deep_view() == empty_object(),
        tree matches Some(kept) ==> kept == raw,
{
    proof {
        law_optional_object_emptiness(raw.deep_view());
    }
    let empty = match &raw {
        Value::Object(members) => {
            proof {
                lemma_object_view(*members);
            }
            members.len() == 0
        },
        _ => false,
    };
    if empty {
        None
    } else {
        Some(raw)
    }
}

/// Writes a tree in which the empty object stands for nothing.
pub fn encode_optional_object(tree: Option<Value>) -> (raw: Value)
    ensures
        raw.deep_view() == spec_encode_optional_object(tree.deep_view()),
{
    match tree {
        None => {
            let members: Vec<Member> = Vec::new();
            proof {
                lemma_object_view(members);
                assert(members.deep_view() =~= Seq::empty());
            }
            Value::Object(members)
        },
        Some(v) => v,
    }
}

/// The window that has the focus, if one has.
#[derive(Debug, Clone, PartialEq, Eq)]
pub struct ActiveWindow(pub Option<Client>);

impl DeepView for ActiveWindow {
    type V = Option<ClientView>;

    open spec fn deep_view(&self) -> Option<ClientView> {
        self.0.deep_view()
    }
}

/// The reply that names the active window: the empty object where no window
/// is active, a window otherwise.
pub open spec fn spec_active_window(v: ValueView) -> Result<Option<ClientView>, DecodeErrorView> {
    match spec_optional_object(v) {
        None => Ok(None),
        Some(tree) => match spec_client(tree) {
            Ok(client) => Ok(Some(client)),
            Err(e) => Err(e),
        },
    }
}

impl ActiveWindow {
    /// Decodes the reply that names the active window.
    pub fn from(raw: Value) -> (r: Result<ActiveWindow, DecodeError>)
        ensures
            agrees(r, spec_active_window(raw.deep_view())),
            raw.deep_view() == empty_object() ==> (r matches Ok(window) && window.0 is None),
    {
        match decode_optional_object(raw) {
            None => Ok(ActiveWindow(None)),
            Some(tree) => {
                let client = decode_client(&tree)?;
                Ok(ActiveWindow(Some(client)))
            },
        }
    }
}

} // verus!
