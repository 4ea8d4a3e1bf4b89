//! The payloads of the link search service and their JSON form.

use vstd::prelude::*;
use vstd::string::*;

use crate::text::{decimal, push_decimal, push_quoted, quoted};

verus! {

/// A link as clients see it.
#[derive(Clone, Debug)]
pub struct LinkModel {
    pub name: String,
    pub url: String,
    pub author: String,
}

/// A link with its id, its fields flattened next to the id:
/// `{"id":…,"name":…,"url":…,"author":…}`.
pub open spec fn link_json(id: nat, m: LinkModel) -> Seq<char> {
    "{\"id\":"@ + decimal(id) + ",\"name\":"@ + quoted(m.name@) + ",\"url\":"@ + quoted(m.url@)
        + ",\"author\":"@ + quoted(m.author@) + "}"@
}

/// Writes [`link_json`].
fn write_link(id: u64, m: &LinkModel) -> (r: String)
    ensures
        r@ == link_json(id as nat, *m),
{
    let mut out = String::new();
    out.append("{\"id\":");
    push_decimal(&mut out, id);
    out.append(",\"name\":");
    push_quoted(&mut out, m.name.as_str());
    out.append(",\"url\":");
    push_quoted(&mut out, m.url.as_str());
    out.append(",\"author\":");
    push_quoted(&mut out, m.author.as_str());
    out.append("}");
    proof {
        assert(out@ =~= link_json(id as nat, *m));
    }
    out
}

/// The reply to a lookup by name.
#[derive(Clone, Debug)]
pub struct SearchResponse {
    pub id: u64,
    pub model: LinkModel,
}

impl SearchResponse {
    /// The JSON text of the reply.
    pub fn to_json(&self) -> (r: String)
        ensures
            r@ == link_json(self.id as nat, self.model),
    {
        write_link(self.id, &self.model)
    }
}

/// The body of a request that creates a link.
#[derive(Clone, Debug)]
pub struct CreateLinkRequest {
    pub model: LinkModel,
}

/// The reply to a creation.
#[derive(Clone, Debug)]
pub struct CreateLinkResponse {
    pub id: u64,
    pub model: LinkModel,
}

impl CreateLinkResponse {
    /// The JSON text of the reply.
    pub fn to_json(&self) -> (r: String)
        ensures
            r@ == link_json(self.id as nat, self.model),
    {
        write_link(self.id, &self.model)
    }
}

/// The body of a request that changes a link; each field is optional.
#[derive(Clone, Debug)]
pub struct UpdateLinkRequest {
    pub name: Option<String>,
    pub url: Option<String>,
    pub author: Option<String>,
}

/// The reply to a change.
#[derive(Clone, Debug)]
pub struct UpdateLinkResponse {
    pub id: u64,
    pub model: LinkModel,
}

impl UpdateLinkResponse {
    /// The JSON text of the reply.
    pub fn to_json(&self) -> (r: String)
        ensures
            r@ == link_json(self.id as nat, self.model),
    {
        write_link(self.id, &self.model)
    }
}

} // verus!
