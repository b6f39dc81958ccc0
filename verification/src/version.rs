//! What the compositor says of its own build.

use crate::error::{agrees, DecodeError, DecodeErrorView, Entity};
use crate::read::{
    after, array_field, as_object, as_text, bool_field, lemma_each_end, lemma_each_start,
    lemma_each_step, spec_array_field, spec_bool_field, spec_each, spec_object, spec_text,
    spec_text_field, text_field,
};
use crate::value::{Value, ValueView};
use vstd::prelude::*;

verus! {

/// The build that is running.
#[derive(Debug, Clone, PartialEq, Eq)]
pub struct Version {
    /// The git branch it was built from.
    pub branch: String,
    /// The hash of the commit it was built from.
    pub commit: String,
    /// Whether the tree held changes that were not committed.
    pub dirty: bool,
    /// The message of that commit.
    pub commit_message: String,
    /// The flags it was built with.
    pub flags: Vec<String>,
}

/// The mathematical model of a [`Version`].
pub struct VersionView {
    pub branch: Seq<char>,
    pub commit: Seq<char>,
    pub dirty: bool,
    pub commit_message: Seq<char>,
    pub flags: Seq<Seq<char>>,
}

impl DeepView for Version {
    type V = VersionView;

    open spec fn deep_view(&self) -> VersionView {
        VersionView {
            branch: self.branch@,
            commit: self.commit@,
            dirty: self.dirty,
            commit_message: self.commit_message@,
            flags: self.flags.deep_view(),
        }
    }
}

/// The decoder of one build flag.
pub open spec fn flag_decoder() -> spec_fn(ValueView) -> Result<Seq<char>, DecodeErrorView> {
    |v: ValueView| spec_text(v, Entity::Version, "flags"@)
}

/// The reply to a request for the version: an object with `branch`,
/// `commit`, `dirty`, `commit_message` and the array `flags`.
pub open spec fn spec_version(v: ValueView) -> Result<VersionView, DecodeErrorView> {
    let entity = Entity::Version;
    let object = spec_object(v, entity, ""@);
    let members = object->Ok_0;
    let branch = spec_text_field(members, entity, "branch"@);
    let commit = spec_text_field(members, entity, "commit"@);
    let dirty = spec_bool_field(members, entity, "dirty"@);
    let commit_message = spec_text_field(members, entity, "commit_message"@);
    let items = spec_array_field(members, entity, "flags"@);
    let flags = spec_each(items->Ok_0, flag_decoder());
    if object is Err {
        Err(object->Err_0)
    } else if branch is Err {
        Err(branch->Err_0)
    } else if commit is Err {
        Err(commit->Err_0)
    } else if dirty is Err {
        Err(dirty->Err_0)
    } else if commit_message is Err {
        Err(commit_message->Err_0)
    } else if items is Err {
        Err(items->Err_0)
    } else if flags is Err {
        Err(flags->Err_0)
    } else {
        Ok(
            VersionView {
                branch: branch->Ok_0,
                commit: commit->Ok_0,
                dirty: dirty->Ok_0,
                commit_message: commit_message->Ok_0,
                flags: flags->Ok_0,
            },
        )
    }
}

/// Decodes the items of the array `flags`.
pub fn decode_flags(items: &Vec<Value>) -> (r: Result<Vec<String>, DecodeError>)
    ensures
        agrees(r, spec_each(items.deep_view(), flag_decoder())),
{
    let ghost all = items.deep_view();
    let ghost decode = flag_decoder();
    let mut out: Vec<String> = Vec::new();
    let mut i: usize = 0;
    proof {
        lemma_each_start(all, decode);
        assert(out.deep_view() =~= Seq::empty());
    }
    while i < items.len()
        invariant
            i <= items.len(),
            all == items.deep_view(),
            decode == flag_decoder(),
            spec_each(all, decode) == after(out.deep_view(), spec_each(all.skip(i as int), decode)),
        decreases items.len() - i,
    {
        let ghost before = out.deep_view();
        proof {
            lemma_each_step(all, decode, before, i as int);
        }
        let item = as_text(&items[i], Entity::Version, "flags")?;
        let ghost item_view = item.deep_view();
        out.push(item);
        proof {
            assert(out.deep_view() =~= before.push(item_view));
        }
        i += 1;
    }
    proof {
        lemma_each_end(all, decode, out.deep_view());
    }
    Ok(out)
}

/// Decodes the reply to a request for the version.
pub fn decode_version(payload: &Value) -> (r: Result<Version, DecodeError>)
    ensures
        agrees(r, spec_version(payload.deep_view())),
{
    let entity = Entity::Version;
    let members = as_object(payload, entity, "")?;
    let branch = text_field(members, entity, "branch")?;
    let commit = text_field(members, entity, "commit")?;
    let dirty = bool_field(members, entity, "dirty")?;
    let commit_message = text_field(members, entity, "commit_message")?;
    let items = array_field(members, entity, "flags")?;
    let flags = decode_flags(items)?;
    Ok(Version { branch, commit, dirty, commit_message, flags })
}

} // verus!
