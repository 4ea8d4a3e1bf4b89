//! The stand-in link store behind the search service: it echoes what it
//! is asked for under id 0.

use vstd::prelude::*;
use vstd::string::*;

use crate::messages::{LinkModel, UpdateLinkRequest};
use crate::search::LinkRecord;

verus! {

/// Finds a link by name: id 0, the name asked for, an empty url and author.
pub fn find_link_by_name(name: String) -> (r: LinkRecord)
    ensures
        r.id == 0,
        r.model.name == name,
        r.model.url@ == Seq::<char>::empty(),
        r.model.author@ == Seq::<char>::empty(),
{
    LinkRecord {
        id: 0,
        model: LinkModel { name, url: String::new(), author: String::new() },
    }
}

/// Creates a link: id 0 and the fields given.
pub fn create_link(model: LinkModel) -> (r: LinkRecord)
    ensures
        r.id == 0,
        r.model == model,
{
    LinkRecord { id: 0, model }
}

/// Changes a link: id 0 and the fields given, all of which must be there.
pub fn update_link(req: UpdateLinkRequest) -> (r: LinkRecord)
    requires
        req.name is Some,
        req.url is Some,
        req.author is Some,
    ensures
        r.id == 0,
        Some(r.model.name) == req.name,
        Some(r.model.url) == req.url,
        Some(r.model.author) == req.author,
{
    LinkRecord {
        id: 0,
        model: LinkModel {
            name: req.name.unwrap(),
            url: req.url.unwrap(),
            author: req.author.unwrap(),
        },
    }
}

} // verus!
