//! The interior of a shop: the objects placed in it, and its shelves.
//!
//! Positions and angles are single-precision numbers. They pass through
//! unread, each as the 32 bits that make it up.

use vstd::prelude::*;
use vstd::string::*;

use crate::cache::{API_VERSION, Resource, Timestamp};
use crate::sync::{
    FetchPlan,
    Identified,
    Method,
    MutationPlan,
    Target,
    plan_fetch,
    plan_mutation,
    planned_fetch,
    plans_request,
};
use crate::text::{append_decimal, c_string_text, c_text, decimal};

verus! {

/// The draft of an interior reference list, as it is sent.
#[derive(Debug, Clone, PartialEq, Eq)]
pub struct InteriorRefList {
    pub shop_id: i32,
    pub owner_id: Option<i32>,
    pub ref_list: Vec<InteriorRef>,
    pub shelves: Vec<Shelf>,
}

/// One object placed in a shop.
#[derive(Debug, Clone, PartialEq, Eq)]
pub struct InteriorRef {
    pub base_mod_name: String,
    pub base_local_form_id: u32,
    pub ref_mod_name: Option<String>,
    pub ref_local_form_id: u32,
    pub position_x: u32,
    pub position_y: u32,
    pub position_z: u32,
    pub angle_x: u32,
    pub angle_y: u32,
    pub angle_z: u32,
    pub scale: u16,
}

/// One shelf of a shop.
#[derive(Debug, Clone, PartialEq, Eq)]
pub struct Shelf {
    pub shelf_type: u32,
    pub position_x: u32,
    pub position_y: u32,
    pub position_z: u32,
    pub angle_x: u32,
    pub angle_y: u32,
    pub angle_z: u32,
    pub scale: u16,
    pub page: u32,
    pub filter_form_type: Option<u32>,
    pub filter_is_food: bool,
    pub search: Option<String>,
    pub sort_on: Option<String>,
    pub sort_asc: bool,
}

/// An interior reference list as the server saved it.
#[derive(Debug, Clone, PartialEq, Eq)]
pub struct SavedInteriorRefList {
    pub id: i32,
    pub shop_id: i32,
    pub owner_id: i32,
    pub ref_list: Vec<InteriorRef>,
    pub shelves: Vec<Shelf>,
    pub created_at: Timestamp,
    pub updated_at: Timestamp,
}

/// One placed object as it crosses the boundary. `ref_mod_name` is `None`
/// where no text is passed.
#[derive(Debug, Clone, PartialEq, Eq)]
pub struct RawInteriorRef {
    pub base_mod_name: String,
    pub base_local_form_id: u32,
    pub ref_mod_name: Option<String>,
    pub ref_local_form_id: u32,
    pub position_x: u32,
    pub position_y: u32,
    pub position_z: u32,
    pub angle_x: u32,
    pub angle_y: u32,
    pub angle_z: u32,
    pub scale: u16,
}

/// One shelf as it crosses the boundary. A `filter_form_type` of 0 stands
/// for no filter; `search` and `sort_on` are `None` where no text is
/// passed.
#[derive(Debug, Clone, PartialEq, Eq)]
pub struct RawShelf {
    pub shelf_type: u32,
    pub position_x: u32,
    pub position_y: u32,
    pub position_z: u32,
    pub angle_x: u32,
    pub angle_y: u32,
    pub angle_z: u32,
    pub scale: u16,
    pub page: u32,
    pub filter_form_type: u32,
    pub filter_is_food: bool,
    pub search: Option<String>,
    pub sort_on: Option<String>,
    pub sort_asc: bool,
}

/// The placed objects that are handed to the host.
#[derive(Debug, Clone, PartialEq, Eq)]
pub struct RawInteriorRefVec {
    pub items: Vec<RawInteriorRef>,
}

/// The shelves that are handed to the host.
#[derive(Debug, Clone, PartialEq, Eq)]
pub struct RawShelfVec {
    pub items: Vec<RawShelf>,
}

/// What is handed to the host for an interior reference list: its placed
/// objects and its shelves, side by side.
#[derive(Debug, Clone, PartialEq, Eq)]
pub struct RawInteriorRefData {
    pub interior_ref_vec: RawInteriorRefVec,
    pub shelf_vec: RawShelfVec,
}

/// Whether two optional strings hold the same text, or both none.
pub open spec fn same_text(a: Option<String>, b: Option<String>) -> bool {
    match (a, b) {
        (Some(s), Some(t)) => s@ == t@,
        (None, None) => true,
        _ => false,
    }
}

/// Whether `b` is what crosses the boundary in place of `a`: none for
/// none, and else the text as it can cross.
pub open spec fn same_c_text(a: Option<String>, b: Option<String>) -> bool {
    match (a, b) {
        (Some(s), Some(t)) => t@ == c_text(s@),
        (None, None) => true,
        _ => false,
    }
}

/// The filter that the host's number stands for: none for 0.
pub open spec fn filter_of(form_type: u32) -> Option<u32> {
    if form_type == 0 {
        None
    } else {
        Some(form_type)
    }
}

/// The number that stands for a filter at the host: 0 for none.
pub open spec fn filter_number(filter: Option<u32>) -> u32 {
    match filter {
        Some(form_type) => form_type,
        None => 0,
    }
}

/// Whether `placed` is what the host's record `raw` stands for.
pub open spec fn ref_from_game(raw: RawInteriorRef, placed: InteriorRef) -> bool {
    &&& placed.base_mod_name@ == raw.base_mod_name@
    &&& placed.base_local_form_id == raw.base_local_form_id
    &&& same_text(raw.ref_mod_name, placed.ref_mod_name)
    &&& placed.ref_local_form_id == raw.ref_local_form_id
    &&& placed.position_x == raw.position_x
    &&& placed.position_y == raw.position_y
    &&& placed.position_z == raw.position_z
    &&& placed.angle_x == raw.angle_x
    &&& placed.angle_y == raw.angle_y
    &&& placed.angle_z == raw.angle_z
    &&& placed.scale == raw.scale
}

/// Whether `shelf` is what the host's record `raw` stands for.
pub open spec fn shelf_from_game(raw: RawShelf, shelf: Shelf) -> bool {
    &&& shelf.shelf_type == raw.shelf_type
    &&& shelf.position_x == raw.position_x
    &&& shelf.position_y == raw.position_y
    &&& shelf.position_z == raw.position_z
    &&& shelf.angle_x == raw.angle_x
    &&& shelf.angle_y == raw.angle_y
    &&& shelf.angle_z == raw.angle_z
    &&& shelf.scale == raw.scale
    &&& shelf.page == raw.page
    &&& shelf.filter_form_type == filter_of(raw.filter_form_type)
    &&& shelf.filter_is_food == raw.filter_is_food
    &&& same_text(raw.search, shelf.search)
    &&& same_text(raw.sort_on, shelf.sort_on)
    &&& shelf.sort_asc == raw.sort_asc
}

/// Whether `raw` is what is handed to the host for `placed`.
pub open spec fn ref_handed_out(placed: InteriorRef, raw: RawInteriorRef) -> bool {
    &&& raw.base_mod_name@ == c_text(placed.base_mod_name@)
    &&& raw.base_local_form_id == placed.base_local_form_id
    &&& same_c_text(placed.ref_mod_name, raw.ref_mod_name)
    &&& raw.ref_local_form_id == placed.ref_local_form_id
    &&& raw.position_x == placed.position_x
    &&& raw.position_y == placed.position_y
    &&& raw.position_z == placed.position_z
    &&& raw.angle_x == placed.angle_x
    &&& raw.angle_y == placed.angle_y
    &&& raw.angle_z == placed.angle_z
    &&& raw.scale == placed.scale
}

/// Whether `raw` is what is handed to the host for `shelf`.
pub open spec fn shelf_handed_out(shelf: Shelf, raw: RawShelf) -> bool {
    &&& raw.shelf_type == shelf.shelf_type
    &&& raw.position_x == shelf.position_x
    &&& raw.position_y == shelf.position_y
    &&& raw.position_z == shelf.position_z
    &&& raw.angle_x == shelf.angle_x
    &&& raw.angle_y == shelf.angle_y
    &&& raw.angle_z == shelf.angle_z
    &&& raw.scale == shelf.scale
    &&& raw.page == shelf.page
    &&& raw.filter_form_type == filter_number(shelf.filter_form_type)
    &&& raw.filter_is_food == shelf.filter_is_food
    &&& same_c_text(shelf.search, raw.search)
    &&& same_c_text(shelf.sort_on, raw.sort_on)
    &&& raw.sort_asc == shelf.sort_asc
}

/// Whether `list` is the draft for the shop `shop_id` that holds the
/// host's records, in their order, and leaves the owner to the server.
pub open spec fn drafted_from_game(
    shop_id: i32,
    refs: Seq<RawInteriorRef>,
    shelves: Seq<RawShelf>,
    list: InteriorRefList,
) -> bool {
    &&& list.shop_id == shop_id
    &&& list.owner_id is None
    &&& list.ref_list@.len() == refs.len()
    &&& forall|i: int| 0 <= i < refs.len() ==> ref_from_game(#[trigger] refs[i], list.ref_list@[i])
    &&& list.shelves@.len() == shelves.len()
    &&& forall|i: int|
        0 <= i < shelves.len() ==> shelf_from_game(#[trigger] shelves[i], list.shelves@[i])
}

/// Whether `raw` is what is handed to the host for `list`: one record for
/// each placed object and for each shelf, in their order.
pub open spec fn data_handed_out(list: SavedInteriorRefList, raw: RawInteriorRefData) -> bool {
    &&& raw.interior_ref_vec.items@.len() == list.ref_list@.len()
    &&& forall|i: int|
        0 <= i < list.ref_list@.len() ==> ref_handed_out(
            #[trigger] list.ref_list@[i],
            raw.interior_ref_vec.items@[i],
        )
    &&& raw.shelf_vec.items@.len() == list.shelves@.len()
    &&& forall|i: int|
        0 <= i < list.shelves@.len() ==> shelf_handed_out(
            #[trigger] list.shelves@[i],
            raw.shelf_vec.items@[i],
        )
}

fn copy_text(s: &Option<String>) -> (r: Option<String>)
    ensures
        same_text(*s, r),
{
    match s {
        Some(text) => Some(text.clone()),
        None => None,
    }
}

fn c_string_option(s: &Option<String>) -> (r: Option<String>)
    ensures
        same_c_text(*s, r),
{
    match s {
        Some(text) => Some(c_string_text(text.as_str())),
        None => None,
    }
}

impl InteriorRef {
    /// The placed object that a record of the host stands for.
    pub fn from_game(raw: &RawInteriorRef) -> (placed: InteriorRef)
        ensures
            ref_from_game(*raw, placed),
    {
        InteriorRef {
            base_mod_name: raw.base_mod_name.clone(),
            base_local_form_id: raw.base_local_form_id,
            ref_mod_name: copy_text(&raw.ref_mod_name),
            ref_local_form_id: raw.ref_local_form_id,
            position_x: raw.position_x,
            position_y: raw.position_y,
            position_z: raw.position_z,
            angle_x: raw.angle_x,
            angle_y: raw.angle_y,
            angle_z: raw.angle_z,
            scale: raw.scale,
        }
    }
}

impl Shelf {
    /// The shelf that a record of the host stands for.
    pub fn from_game(raw: &RawShelf) -> (shelf: Shelf)
        ensures
            shelf_from_game(*raw, shelf),
    {
        Shelf {
            shelf_type: raw.shelf_type,
            position_x: raw.position_x,
            position_y: raw.position_y,
            position_z: raw.position_z,
            angle_x: raw.angle_x,
            angle_y: raw.angle_y,
            angle_z: raw.angle_z,
            scale: raw.scale,
            page: raw.page,
            filter_form_type: if raw.filter_form_type == 0 {
                None
            } else {
                Some(raw.filter_form_type)
            },
            filter_is_food: raw.filter_is_food,
            search: copy_text(&raw.search),
            sort_on: copy_text(&raw.sort_on),
            sort_asc: raw.sort_asc,
        }
    }
}

impl InteriorRefList {
    /// The draft for the shop `shop_id` that holds the host's records, in
    /// their order. The owner is left to the server.
    pub fn from_game(
        shop_id: i32,
        raw_interior_ref_slice: &[RawInteriorRef],
        raw_shelves_slice: &[RawShelf],
    ) -> (list: InteriorRefList)
        ensures
            drafted_from_game(shop_id, raw_interior_ref_slice@, raw_shelves_slice@, list),
    {
        let mut ref_list: Vec<InteriorRef> = Vec::new();
        let mut i: usize = 0;
        while i < raw_interior_ref_slice.len()
            invariant
                i <= raw_interior_ref_slice@.len(),
                ref_list@.len() == i,
                forall|j: int|
                    0 <= j < i ==> ref_from_game(
                        #[trigger] raw_interior_ref_slice@[j],
                        ref_list@[j],
                    ),
            decreases raw_interior_ref_slice@.len() - i,
        {
            ref_list.push(InteriorRef::from_game(&raw_interior_ref_slice[i]));
            i += 1;
        }
        let mut shelves: Vec<Shelf> = Vec::new();
        let mut k: usize = 0;
        while k < raw_shelves_slice.len()
            invariant
                k <= raw_shelves_slice@.len(),
                shelves@.len() == k,
                forall|j: int|
                    0 <= j < k ==> shelf_from_game(#[trigger] raw_shelves_slice@[j], shelves@[j]),
            decreases raw_shelves_slice@.len() - k,
        {
            shelves.push(Shelf::from_game(&raw_shelves_slice[k]));
            k += 1;
        }
        InteriorRefList { shop_id, owner_id: None, ref_list, shelves }
    }
}

impl RawInteriorRef {
    /// The record that is handed to the host for a placed object.
    pub fn from(interior_ref: &InteriorRef) -> (raw: RawInteriorRef)
        ensures
            ref_handed_out(*interior_ref, raw),
    {
        RawInteriorRef {
            base_mod_name: c_string_text(interior_ref.base_mod_name.as_str()),
            base_local_form_id: interior_ref.base_local_form_id,
            ref_mod_name: c_string_option(&interior_ref.ref_mod_name),
            ref_local_form_id: interior_ref.ref_local_form_id,
            position_x: interior_ref.position_x,
            position_y: interior_ref.position_y,
            position_z: interior_ref.position_z,
            angle_x: interior_ref.angle_x,
            angle_y: interior_ref.angle_y,
            angle_z: interior_ref.angle_z,
            scale: interior_ref.scale,
        }
    }
}

impl RawShelf {
    /// The record that is handed to the host for a shelf.
    pub fn from(shelf: &Shelf) -> (raw: RawShelf)
        ensures
            shelf_handed_out(*shelf, raw),
    {
        RawShelf {
            shelf_type: shelf.shelf_type,
            position_x: shelf.position_x,
            position_y: shelf.position_y,
            position_z: shelf.position_z,
            angle_x: shelf.angle_x,
            angle_y: shelf.angle_y,
            angle_z: shelf.angle_z,
            scale: shelf.scale,
            page: shelf.page,
            filter_form_type: match shelf.filter_form_type {
                None => 0,
                Some(form_type) => form_type,
            },
            filter_is_food: shelf.filter_is_food,
            search: c_string_option(&shelf.search),
            sort_on: c_string_option(&shelf.sort_on),
            sort_asc: shelf.sort_asc,
        }
    }
}

impl RawInteriorRefData {
    /// What is handed to the host for a saved list.
    pub fn from(list: &SavedInteriorRefList) -> (raw: RawInteriorRefData)
        ensures
            data_handed_out(*list, raw),
    {
        let mut refs: Vec<RawInteriorRef> = Vec::new();
        let mut i: usize = 0;
        while i < list.ref_list.len()
            invariant
                i <= list.ref_list@.len(),
                refs@.len() == i,
                forall|j: int|
                    0 <= j < i ==> ref_handed_out(#[trigger] list.ref_list@[j], refs@[j]),
            decreases list.ref_list@.len() - i,
        {
            refs.push(RawInteriorRef::from(&list.ref_list[i]));
            i += 1;
        }
        let mut shelves: Vec<RawShelf> = Vec::new();
        let mut k: usize = 0;
        while k < list.shelves.len()
            invariant
                k <= list.shelves@.len(),
                shelves@.len() == k,
                forall|j: int|
                    0 <= j < k ==> shelf_handed_out(#[trigger] list.shelves@[j], shelves@[j]),
            decreases list.shelves@.len() - k,
        {
            shelves.push(RawShelf::from(&list.shelves[k]));
            k += 1;
        }
        RawInteriorRefData {
            interior_ref_vec: RawInteriorRefVec { items: refs },
            shelf_vec: RawShelfVec { items: shelves },
        }
    }
}

impl Identified for SavedInteriorRefList {
    open spec fn cache_resource(&self) -> Resource {
        Resource::InteriorRefList(self.id as i64)
    }

    fn resource(&self) -> (r: Resource) {
        Resource::InteriorRefList(self.id as i64)
    }
}

/// The path of the collection of interior reference lists.
pub open spec fn interior_ref_lists_path() -> Seq<char> {
    API_VERSION@ + "/interior_ref_lists"@
}

/// The path of the interior reference list with the given id.
pub open spec fn interior_ref_list_path(id: int) -> Seq<char> {
    API_VERSION@ + "/interior_ref_lists/"@ + decimal(id)
}

/// The path of the interior reference list of the shop with the given id.
pub open spec fn shop_interior_ref_list_path(shop_id: int) -> Seq<char> {
    API_VERSION@ + "/shops/"@ + decimal(shop_id) + "/interior_ref_list"@
}

fn shop_interior_ref_list_path_string(shop_id: i32) -> (path: String)
    ensures
        path@ == shop_interior_ref_list_path(shop_id as int),
{
    let mut path = String::from_str(API_VERSION);
    path.append("/shops/");
    append_decimal(&mut path, shop_id as i64);
    path.append("/interior_ref_list");
    path
}

/// Plans the creation of the interior reference list of a shop: a `POST`
/// of the draft to the collection. The saved list is cached under its own
/// id.
pub fn create_interior_ref_list(
    api_url: &str,
    api_key: &str,
    shop_id: i32,
    raw_interior_refs: &[RawInteriorRef],
    raw_shelves: &[RawShelf],
) -> (plan: MutationPlan<InteriorRefList>)
    ensures
        plans_request(
            plan,
            Method::Post,
            api_url@,
            api_key@,
            interior_ref_lists_path(),
            Target::OfSaved,
        ),
        drafted_from_game(
            shop_id,
            raw_interior_refs@,
            raw_shelves@,
            plan.draft,
        ),
{
    let mut path = String::from_str(API_VERSION);
    path.append("/interior_ref_lists");
    let draft = InteriorRefList::from_game(shop_id, raw_interior_refs, raw_shelves);
    plan_mutation(Method::Post, api_url, api_key, path.as_str(), Target::OfSaved, draft)
}

/// Plans the update of the interior reference list of a shop: a `PATCH`
/// of the draft to the list of that shop. The saved list is cached under
/// the shop's id.
pub fn update_interior_ref_list(
    api_url: &str,
    api_key: &str,
    shop_id: i32,
    raw_interior_refs: &[RawInteriorRef],
    raw_shelves: &[RawShelf],
) -> (plan: MutationPlan<InteriorRefList>)
    ensures
        plans_request(
            plan,
            Method::Patch,
            api_url@,
            api_key@,
            shop_interior_ref_list_path(shop_id as int),
            Target::At(Resource::ShopInteriorRefList(shop_id as i64)),
        ),
        drafted_from_game(
            shop_id,
            raw_interior_refs@,
            raw_shelves@,
            plan.draft,
        ),
{
    let path = shop_interior_ref_list_path_string(shop_id);
    let draft = InteriorRefList::from_game(shop_id, raw_interior_refs, raw_shelves);
    plan_mutation(
        Method::Patch,
        api_url,
        api_key,
        path.as_str(),
        Target::At(Resource::ShopInteriorRefList(shop_id as i64)),
        draft,
    )
}

/// Plans the fetch of the interior reference list with the given id.
pub fn get_interior_ref_list(api_url: &str, api_key: &str, interior_ref_list_id: i32) -> (plan:
    FetchPlan)
    ensures
        plan@ == planned_fetch(
            api_url@,
            api_key@,
            interior_ref_list_path(interior_ref_list_id as int),
            Resource::InteriorRefList(interior_ref_list_id as i64),
        ),
{
    let mut path = String::from_str(API_VERSION);
    path.append("/interior_ref_lists/");
    append_decimal(&mut path, interior_ref_list_id as i64);
    plan_fetch(
        api_url,
        api_key,
        path.as_str(),
        Resource::InteriorRefList(interior_ref_list_id as i64),
    )
}

/// Plans the fetch of the interior reference list of the shop with the
/// given id.
pub fn get_interior_ref_list_by_shop_id(api_url: &str, api_key: &str, shop_id: i32) -> (plan:
    FetchPlan)
    ensures
        plan@ == planned_fetch(
            api_url@,
            api_key@,
            shop_interior_ref_list_path(shop_id as int),
            Resource::ShopInteriorRefList(shop_id as i64),
        ),
{
    let path = shop_interior_ref_list_path_string(shop_id);
    plan_fetch(api_url, api_key, path.as_str(), Resource::ShopInteriorRefList(shop_id as i64))
}

} // verus!
