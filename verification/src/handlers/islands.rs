//! Vocabulary islands: topic-based word collections.

use vstd::prelude::*;
use crate::pollinations::setting;
use crate::text::{owned, concat2};

verus! {

/// Form fields of a new island (`None` where absent or not text).
pub struct IslandParams {
    pub name: Option<String>,
    pub topic: Option<String>,
    pub description: Option<String>,
}

/// An island to create.
pub struct IslandDraft {
    pub name: String,
    pub topic: String,
    pub description: Option<String>,
}

/// `POST /islands`: the island with name `New Island` and topic `general`
/// where the form gives none.
pub fn create(params: IslandParams) -> (d: IslandDraft)
    ensures
        d.name@ == setting(params.name, "New Island"@),
        d.topic@ == setting(params.topic, "general"@),
        d.description == params.description,
{
    let IslandParams { name, topic, description } = params;
    let name = match name {
        Some(n) => n,
        None => owned("New Island"),
    };
    let topic = match topic {
        Some(t) => t,
        None => owned("general"),
    };
    IslandDraft { name, topic, description }
}

/// Text of the page of an island.
pub fn view(id: &str) -> (t: String)
    ensures
        t@ == "Vocabulary Island: "@ + id@,
{
    concat2("Vocabulary Island: ", id)
}

} // verus!
