//! The merchandise list of a shop.

use vstd::prelude::*;
use vstd::string::*;

use crate::cache::{API_VERSION, Resource, Timestamp};
use crate::sync::{
    FetchPlan,
    Identified,
    Method,
    MutationPlan,
    Target,
    plan_fetch,
    plan_mutation,
    planned_fetch,
    plans_request,
};
use crate::text::{
    append_decimal,
    c_string_text,
    c_string_texts,
    c_text,
    c_texts,
    copy_texts,
    decimal,
    texts,
};

verus! {

/// The draft of a merchandise list, as it is sent.
#[derive(Debug, Clone, PartialEq, Eq)]
pub struct MerchandiseList {
    pub shop_id: i32,
    pub owner_id: Option<i32>,
    pub form_list: Vec<Merchandise>,
}

/// One kind of item on sale.
#[derive(Debug, Clone, PartialEq, Eq)]
pub struct Merchandise {
    pub mod_name: String,
    pub local_form_id: u32,
    pub name: String,
    pub quantity: u32,
    pub form_type: u32,
    pub is_food: bool,
    pub price: u32,
    pub keywords: Vec<String>,
}

/// A merchandise list as the server saved it.
#[derive(Debug, Clone, PartialEq, Eq)]
pub struct SavedMerchandiseList {
    pub id: i32,
    pub shop_id: i32,
    pub owner_id: i32,
    pub form_list: Vec<Merchandise>,
    pub created_at: Timestamp,
    pub updated_at: Timestamp,
}

/// One item as it crosses the boundary. `keywords` is `None` where the
/// host passes no list at all.
#[derive(Debug, Clone, PartialEq, Eq)]
pub struct RawMerchandise {
    pub mod_name: String,
    pub local_form_id: u32,
    pub name: String,
    pub quantity: u32,
    pub form_type: u32,
    pub is_food: bool,
    pub price: u32,
    pub keywords: Option<Vec<String>>,
}

/// The items that are handed to the host for a merchandise list.
#[derive(Debug, Clone, PartialEq, Eq)]
pub struct RawMerchandiseVec {
    pub items: Vec<RawMerchandise>,
}

/// Whether `item` is what the host's record `raw` stands for: the same
/// fields, and no keywords where the host passed no list.
pub open spec fn taken_from_game(raw: RawMerchandise, item: Merchandise) -> bool {
    &&& item.mod_name@ == raw.mod_name@
    &&& item.local_form_id == raw.local_form_id
    &&& item.name@ == raw.name@
    &&& item.quantity == raw.quantity
    &&& item.form_type == raw.form_type
    &&& item.is_food == raw.is_food
    &&& item.price == raw.price
    &&& texts(item.keywords@) == match raw.keywords {
        Some(keywords) => texts(keywords@),
        None => Seq::empty(),
    }
}

/// Whether `raw` is what is handed to the host for `item`: the same
/// numbers, each text as it can cross the boundary, and always a list of
/// keywords.
pub open spec fn handed_out(item: Merchandise, raw: RawMerchandise) -> bool {
    &&& raw.mod_name@ == c_text(item.mod_name@)
    &&& raw.local_form_id == item.local_form_id
    &&& raw.name@ == c_text(item.name@)
    &&& raw.quantity == item.quantity
    &&& raw.form_type == item.form_type
    &&& raw.is_food == item.is_food
    &&& raw.price == item.price
    &&& raw.keywords matches Some(keywords) && texts(keywords@) == c_texts(texts(item.keywords@))
}

impl Merchandise {
    /// The item that a record of the host stands for.
    pub fn from_game(raw: &RawMerchandise) -> (item: Merchandise)
        ensures
            taken_from_game(*raw, item),
    {
        let keywords = match &raw.keywords {
            Some(keywords) => copy_texts(keywords),
            None => Vec::new(),
        };
        assert(raw.keywords is None ==> texts(keywords@) =~= Seq::empty());
        Merchandise {
            mod_name: raw.mod_name.clone(),
            local_form_id: raw.local_form_id,
            name: raw.name.clone(),
            quantity: raw.quantity,
            form_type: raw.form_type,
            is_food: raw.is_food,
            price: raw.price,
            keywords,
        }
    }
}

impl MerchandiseList {
    /// The draft for the shop `shop_id` that holds the host's records, in
    /// their order. The owner is left to the server.
    pub fn from_game(shop_id: i32, merch_records: &[RawMerchandise]) -> (list: MerchandiseList)
        ensures
            drafted_from_game(shop_id, merch_records@, list),
    {
        let mut form_list: Vec<Merchandise> = Vec::new();
        let mut i: usize = 0;
        while i < merch_records.len()
            invariant
                i <= merch_records@.len(),
                form_list@.len() == i,
                forall|j: int|
                    0 <= j < i ==> taken_from_game(#[trigger] merch_records@[j], form_list@[j]),
            decreases merch_records@.len() - i,
        {
            form_list.push(Merchandise::from_game(&merch_records[i]));
            i += 1;
        }
        MerchandiseList { shop_id, owner_id: None, form_list }
    }
}

impl RawMerchandise {
    /// The record that is handed to the host for an item.
    pub fn from(item: &Merchandise) -> (raw: RawMerchandise)
        ensures
            handed_out(*item, raw),
    {
        RawMerchandise {
            mod_name: c_string_text(item.mod_name.as_str()),
            local_form_id: item.local_form_id,
            name: c_string_text(item.name.as_str()),
            quantity: item.quantity,
            form_type: item.form_type,
            is_food: item.is_food,
            price: item.price,
            keywords: Some(c_string_texts(&item.keywords)),
        }
    }
}

impl RawMerchandiseVec {
    /// The records that are handed to the host for a saved list: one for
    /// each of its items, in their order.
    pub fn from(list: &SavedMerchandiseList) -> (raw: RawMerchandiseVec)
        ensures
            raw.items@.len() == list.form_list@.len(),
            forall|i: int|
                0 <= i < list.form_list@.len() ==> handed_out(
                    #[trigger] list.form_list@[i],
                    raw.items@[i],
                ),
    {
        let mut items: Vec<RawMerchandise> = Vec::new();
        let mut i: usize = 0;
        while i < list.form_list.len()
            invariant
                i <= list.form_list@.len(),
                items@.len() == i,
                forall|j: int|
                    0 <= j < i ==> handed_out(#[trigger] list.form_list@[j], items@[j]),
            decreases list.form_list@.len() - i,
        {
            items.push(RawMerchandise::from(&list.form_list[i]));
            i += 1;
        }
        RawMerchandiseVec { items }
    }
}

impl Identified for SavedMerchandiseList {
    open spec fn cache_resource(&self) -> Resource {
        Resource::MerchandiseList(self.id as i64)
    }

    fn resource(&self) -> (r: Resource) {
        Resource::MerchandiseList(self.id as i64)
    }
}

/// The path of the collection of merchandise lists.
pub open spec fn merchandise_lists_path() -> Seq<char> {
    API_VERSION@ + "/merchandise_lists"@
}

/// The path of the merchandise list with the given id.
pub open spec fn merchandise_list_path(id: int) -> Seq<char> {
    API_VERSION@ + "/merchandise_lists/"@ + decimal(id)
}

/// The path of the merchandise list of the shop with the given id.
pub open spec fn shop_merchandise_list_path(shop_id: int) -> Seq<char> {
    API_VERSION@ + "/shops/"@ + decimal(shop_id) + "/merchandise_list"@
}

fn shop_merchandise_list_path_string(shop_id: i32) -> (path: String)
    ensures
        path@ == shop_merchandise_list_path(shop_id as int),
{
    let mut path = String::from_str(API_VERSION);
    path.append("/shops/");
    append_decimal(&mut path, shop_id as i64);
    path.append("/merchandise_list");
    path
}

/// Whether `list` is the draft for the shop `shop_id` that holds the
/// host's records, in their order, and leaves the owner to the server.
pub open spec fn drafted_from_game(
    shop_id: i32,
    records: Seq<RawMerchandise>,
    list: MerchandiseList,
) -> bool {
    &&& list.shop_id == shop_id
    &&& list.owner_id is None
    &&& list.form_list@.len() == records.len()
    &&& forall|i: int|
        0 <= i < records.len() ==> taken_from_game(#[trigger] records[i], list.form_list@[i])
}

/// Plans the creation of the merchandise list of a shop: a `POST` of the
/// draft to the collection. The saved list is cached under its own id.
pub fn create_merchandise_list(
    api_url: &str,
    api_key: &str,
    shop_id: i32,
    raw_merchandise: &[RawMerchandise],
) -> (plan: MutationPlan<MerchandiseList>)
    ensures
        plans_request(
            plan,
            Method::Post,
            api_url@,
            api_key@,
            merchandise_lists_path(),
            Target::OfSaved,
        ),
        drafted_from_game(shop_id, raw_merchandise@, plan.draft),
{
    let mut path = String::from_str(API_VERSION);
    path.append("/merchandise_lists");
    let draft = MerchandiseList::from_game(shop_id, raw_merchandise);
    plan_mutation(Method::Post, api_url, api_key, path.as_str(), Target::OfSaved, draft)
}

/// Plans the update of the merchandise list of a shop: a `PATCH` of the
/// draft to the list of that shop. The saved list is cached under the
/// shop's id.
pub fn update_merchandise_list(
    api_url: &str,
    api_key: &str,
    shop_id: i32,
    raw_merchandise: &[RawMerchandise],
) -> (plan: MutationPlan<MerchandiseList>)
    ensures
        plans_request(
            plan,
            Method::Patch,
            api_url@,
            api_key@,
            shop_merchandise_list_path(shop_id as int),
            Target::At(Resource::ShopMerchandiseList(shop_id as i64)),
        ),
        drafted_from_game(shop_id, raw_merchandise@, plan.draft),
{
    let path = shop_merchandise_list_path_string(shop_id);
    let draft = MerchandiseList::from_game(shop_id, raw_merchandise);
    plan_mutation(
        Method::Patch,
        api_url,
        api_key,
        path.as_str(),
        Target::At(Resource::ShopMerchandiseList(shop_id as i64)),
        draft,
    )
}

/// Plans the fetch of the merchandise list with the given id.
pub fn get_merchandise_list(api_url: &str, api_key: &str, merchandise_list_id: i32) -> (plan:
    FetchPlan)
    ensures
        plan@ == planned_fetch(
            api_url@,
            api_key@,
            merchandise_list_path(merchandise_list_id as int),
            Resource::MerchandiseList(merchandise_list_id as i64),
        ),
{
    let mut path = String::from_str(API_VERSION);
    path.append("/merchandise_lists/");
    append_decimal(&mut path, merchandise_list_id as i64);
    plan_fetch(
        api_url,
        api_key,
        path.as_str(),
        Resource::MerchandiseList(merchandise_list_id as i64),
    )
}

/// Plans the fetch of the merchandise list of the shop with the given id.
pub fn get_merchandise_list_by_shop_id(api_url: &str, api_key: &str, shop_id: i32) -> (plan:
    FetchPlan)
    ensures
        plan@ == planned_fetch(
            api_url@,
            api_key@,
            shop_merchandise_list_path(shop_id as int),
            Resource::ShopMerchandiseList(shop_id as i64),
        ),
{
    let path = shop_merchandise_list_path_string(shop_id);
    plan_fetch(api_url, api_key, path.as_str(), Resource::ShopMerchandiseList(shop_id as i64))
}

} // verus!
