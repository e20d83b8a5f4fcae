//! Owners.

use vstd::prelude::*;
use vstd::string::*;

use crate::cache::{API_VERSION, Resource, Timestamp};
use crate::sync::{Identified, Method, MutationPlan, Target, plan_mutation, plans_request};
use crate::text::{append_decimal, c_string_text, c_text, decimal};

verus! {

/// The draft of an owner, as it is sent.
#[derive(Debug, Clone, PartialEq, Eq)]
pub struct Owner {
    pub name: String,
    pub mod_version: i32,
}

/// An owner as the server saved it.
#[derive(Debug, Clone, PartialEq, Eq)]
pub struct SavedOwner {
    pub id: i32,
    pub name: String,
    pub mod_version: i32,
    pub created_at: Timestamp,
    pub updated_at: Timestamp,
}

/// An owner as it is handed to the host.
#[derive(Debug, Clone, PartialEq, Eq)]
pub struct RawOwner {
    pub id: i32,
    pub name: String,
    pub mod_version: i32,
}

/// Whether `owner` is the draft with this name and version of the mod.
pub open spec fn drafted_from_game(name: Seq<char>, mod_version: i32, owner: Owner) -> bool {
    owner.name@ == name && owner.mod_version == mod_version
}

/// Whether `raw` is what is handed to the host for `owner`: the same
/// numbers, and the name as it can cross the boundary.
pub open spec fn handed_out(owner: SavedOwner, raw: RawOwner) -> bool {
    raw.id == owner.id && raw.name@ == c_text(owner.name@) && raw.mod_version == owner.mod_version
}

impl Owner {
    /// The draft of an owner.
    pub fn from_game(name: &str, mod_version: i32) -> (owner: Owner)
        ensures
            drafted_from_game(name@, mod_version, owner),
    {
        Owner { name: String::from_str(name), mod_version }
    }
}

impl RawOwner {
    /// The record that is handed to the host for a saved owner.
    pub fn from(owner: &SavedOwner) -> (raw: RawOwner)
        ensures
            handed_out(*owner, raw),
    {
        RawOwner {
            id: owner.id,
            name: c_string_text(owner.name.as_str()),
            mod_version: owner.mod_version,
        }
    }
}

impl Identified for SavedOwner {
    open spec fn cache_resource(&self) -> Resource {
        Resource::Owner(self.id as i64)
    }

    fn resource(&self) -> (r: Resource) {
        Resource::Owner(self.id as i64)
    }
}

/// The path of the collection of owners.
pub open spec fn owners_path() -> Seq<char> {
    API_VERSION@ + "/owners"@
}

/// The path of the owner with the given id.
pub open spec fn owner_path(id: int) -> Seq<char> {
    API_VERSION@ + "/owners/"@ + decimal(id)
}

/// Plans the creation of an owner: a `POST` of the draft to the
/// collection. The saved owner is cached under its own id.
pub fn create_owner(api_url: &str, api_key: &str, name: &str, mod_version: i32) -> (plan:
    MutationPlan<Owner>)
    ensures
        plans_request(
            plan, Method::Post, api_url@, api_key@, owners_path(), Target::OfSaved),
        drafted_from_game(name@, mod_version, plan.draft),
{
    let mut path = String::from_str(API_VERSION);
    path.append("/owners");
    let draft = Owner::from_game(name, mod_version);
    plan_mutation(Method::Post, api_url, api_key, path.as_str(), Target::OfSaved, draft)
}

/// Plans the update of the owner `id`: a `PATCH` of the draft to the
/// owner. The saved owner is cached under `id`.
pub fn update_owner(api_url: &str, api_key: &str, id: i32, name: &str, mod_version: i32) -> (plan:
    MutationPlan<Owner>)
    ensures
        plans_request(
            plan,
            Method::Patch,
            api_url@,
            api_key@,
            owner_path(id as int),
            Target::At(Resource::Owner(id as i64)),
        ),
        drafted_from_game(name@, mod_version, plan.draft),
{
    let mut path = String::from_str(API_VERSION);
    path.append("/owners/");
    append_decimal(&mut path, id as i64);
    let draft = Owner::from_game(name, mod_version);
    plan_mutation(
        Method::Patch,
        api_url,
        api_key,
        path.as_str(),
        Target::At(Resource::Owner(id as i64)),
        draft,
    )
}

} // verus!
