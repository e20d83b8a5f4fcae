//! Shops.

use vstd::prelude::*;
use vstd::string::*;

use crate::cache::{API_VERSION, Resource, Timestamp};
use crate::sync::{
    FetchPlan,
    Identified,
    Method,
    MutationPlan,
    Target,
    plan_fetch,
    plan_mutation,
    planned_fetch,
    plans_request,
};
use crate::text::{append_decimal, c_string_text, c_string_texts, c_text, c_texts, decimal, texts};

verus! {

/// The draft of a shop, as it is sent. What is `None` is left to the
/// server.
#[derive(Debug, Clone, PartialEq, Eq)]
pub struct Shop {
    pub name: String,
    pub owner_id: Option<i32>,
    pub description: Option<String>,
    pub gold: Option<i32>,
    pub shop_type: Option<String>,
    pub vendor_keywords: Option<Vec<String>>,
    pub vendor_keywords_exclude: Option<bool>,
}

/// A shop as the server saved it.
#[derive(Debug, Clone, PartialEq, Eq)]
pub struct SavedShop {
    pub id: i32,
    pub name: String,
    pub owner_id: i32,
    pub description: Option<String>,
    pub gold: i32,
    pub shop_type: String,
    pub vendor_keywords: Vec<String>,
    pub vendor_keywords_exclude: bool,
    pub created_at: Timestamp,
    pub updated_at: Timestamp,
}

/// A shop as it is handed to the host.
#[derive(Debug, Clone, PartialEq, Eq)]
pub struct RawShop {
    pub id: i32,
    pub name: String,
    pub description: String,
    pub gold: i32,
    pub shop_type: String,
    pub vendor_keywords: Vec<String>,
    pub vendor_keywords_exclude: bool,
}

/// The shops that are handed to the host for a listing.
#[derive(Debug, Clone, PartialEq, Eq)]
pub struct RawShopVec {
    pub items: Vec<RawShop>,
}

/// The text of an optional string, the empty text where there is none.
pub open spec fn text_or_empty(s: Option<String>) -> Seq<char> {
    match s {
        Some(t) => t@,
        None => Seq::empty(),
    }
}

/// Whether `shop` is the draft of a new shop with this name and
/// description: everything else is left to the server.
pub open spec fn drafted_from_game(name: Seq<char>, description: Seq<char>, shop: Shop) -> bool {
    &&& shop.name@ == name
    &&& shop.owner_id is None
    &&& shop.description matches Some(d) && d@ == description
    &&& shop.gold is None
    &&& shop.shop_type is None
    &&& shop.vendor_keywords is None
    &&& shop.vendor_keywords_exclude is None
}

/// Whether `shop` is the draft of an update that sets all of these
/// fields, with no keywords where the host passed no list. The owner is
/// left as it is.
pub open spec fn drafted_update(
    name: Seq<char>,
    description: Seq<char>,
    gold: i32,
    shop_type: Seq<char>,
    vendor_keywords: Option<Vec<String>>,
    vendor_keywords_exclude: bool,
    shop: Shop,
) -> bool {
    &&& shop.name@ == name
    &&& shop.owner_id is None
    &&& shop.description matches Some(d) && d@ == description
    &&& shop.gold == Some(gold)
    &&& shop.shop_type matches Some(t) && t@ == shop_type
    &&& shop.vendor_keywords matches Some(k) && texts(k@) == match vendor_keywords {
        Some(keywords) => texts(keywords@),
        None => Seq::empty(),
    }
    &&& shop.vendor_keywords_exclude == Some(vendor_keywords_exclude)
}

/// Whether `raw` is what is handed to the host for `shop`: the same
/// numbers, each text as it can cross the boundary, and the empty text for
/// a description that is not there.
pub open spec fn handed_out(shop: SavedShop, raw: RawShop) -> bool {
    &&& raw.id == shop.id
    &&& raw.name@ == c_text(shop.name@)
    &&& raw.description@ == c_text(text_or_empty(shop.description))
    &&& raw.gold == shop.gold
    &&& raw.shop_type@ == c_text(shop.shop_type@)
    &&& texts(raw.vendor_keywords@) == c_texts(texts(shop.vendor_keywords@))
    &&& raw.vendor_keywords_exclude == shop.vendor_keywords_exclude
}

impl Shop {
    /// The draft of a new shop.
    pub fn from_game(name: &str, description: &str) -> (shop: Shop)
        ensures
            drafted_from_game(name@, description@, shop),
    {
        Shop {
            name: String::from_str(name),
            owner_id: None,
            description: Some(String::from_str(description)),
            gold: None,
            shop_type: None,
            vendor_keywords: None,
            vendor_keywords_exclude: None,
        }
    }
}

impl RawShop {
    /// The record that is handed to the host for a saved shop.
    pub fn from(shop: &SavedShop) -> (raw: RawShop)
        ensures
            handed_out(*shop, raw),
    {
        let description = match &shop.description {
            Some(text) => c_string_text(text.as_str()),
            None => {
                proof {
                    reveal_strlit("");
                }
                assert(""@ =~= Seq::<char>::empty());
                c_string_text("")
            },
        };
        RawShop {
            id: shop.id,
            name: c_string_text(shop.name.as_str()),
            description,
            gold: shop.gold,
            shop_type: c_string_text(shop.shop_type.as_str()),
            vendor_keywords: c_string_texts(&shop.vendor_keywords),
            vendor_keywords_exclude: shop.vendor_keywords_exclude,
        }
    }
}

impl RawShopVec {
    /// The records that are handed to the host for a listing: one for each
    /// shop, in their order.
    pub fn from(shops: &Vec<SavedShop>) -> (raw: RawShopVec)
        ensures
            raw.items@.len() == shops@.len(),
            forall|i: int|
                0 <= i < shops@.len() ==> handed_out(#[trigger] shops@[i], raw.items@[i]),
    {
        let mut items: Vec<RawShop> = Vec::new();
        let mut i: usize = 0;
        while i < shops.len()
            invariant
                i <= shops@.len(),
                items@.len() == i,
                forall|j: int| 0 <= j < i ==> handed_out(#[trigger] shops@[j], items@[j]),
            decreases shops@.len() - i,
        {
            items.push(RawShop::from(&shops[i]));
            i += 1;
        }
        RawShopVec { items }
    }
}

impl Identified for SavedShop {
    open spec fn cache_resource(&self) -> Resource {
        Resource::Shop(self.id as i64)
    }

    fn resource(&self) -> (r: Resource) {
        Resource::Shop(self.id as i64)
    }
}

/// The path of the collection of shops.
pub open spec fn shops_path() -> Seq<char> {
    API_VERSION@ + "/shops"@
}

/// The path of the shop with the given id.
pub open spec fn shop_path(id: int) -> Seq<char> {
    API_VERSION@ + "/shops/"@ + decimal(id)
}

/// The most shops that one listing asks for.
pub const SHOP_LIST_LIMIT: u32 = 128;

/// The path of the listing of shops, with its bound on the page size.
pub open spec fn shop_list_path() -> Seq<char> {
    API_VERSION@ + "/shops?limit="@ + decimal(SHOP_LIST_LIMIT as int)
}

fn shop_path_string(id: i64) -> (path: String)
    ensures
        path@ == shop_path(id as int),
{
    let mut path = String::from_str(API_VERSION);
    path.append("/shops/");
    append_decimal(&mut path, id);
    path
}

/// Plans the creation of a shop: a `POST` of the draft to the collection.
/// The saved shop is cached under its own id.
pub fn create_shop(api_url: &str, api_key: &str, name: &str, description: &str) -> (plan:
    MutationPlan<Shop>)
    ensures
        plans_request(
            plan, Method::Post, api_url@, api_key@, shops_path(), Target::OfSaved),
        drafted_from_game(name@, description@, plan.draft),
{
    let mut path = String::from_str(API_VERSION);
    path.append("/shops");
    let draft = Shop::from_game(name, description);
    plan_mutation(Method::Post, api_url, api_key, path.as_str(), Target::OfSaved, draft)
}

/// Plans the update of the shop `id`: a `PATCH` of the draft to the shop.
/// The saved shop is cached under `id`.
pub fn update_shop(
    api_url: &str,
    api_key: &str,
    id: u32,
    name: String,
    description: String,
    gold: i32,
    shop_type: String,
    vendor_keywords: Option<Vec<String>>,
    vendor_keywords_exclude: bool,
) -> (plan: MutationPlan<Shop>)
    ensures
        plans_request(
            plan,
            Method::Patch,
            api_url@,
            api_key@,
            shop_path(id as int),
            Target::At(Resource::Shop(id as i64)),
        ),
        drafted_update(
            name@,
            description@,
            gold,
            shop_type@,
            vendor_keywords,
            vendor_keywords_exclude,
            plan.draft,
        ),
{
    let path = shop_path_string(id as i64);
    let keywords = match vendor_keywords {
        Some(keywords) => keywords,
        None => Vec::new(),
    };
    assert(vendor_keywords is None ==> texts(keywords@) =~= Seq::empty());
    let draft = Shop {
        name,
        owner_id: None,
        description: Some(description),
        gold: Some(gold),
        shop_type: Some(shop_type),
        vendor_keywords: Some(keywords),
        vendor_keywords_exclude: Some(vendor_keywords_exclude),
    };
    plan_mutation(
        Method::Patch,
        api_url,
        api_key,
        path.as_str(),
        Target::At(Resource::Shop(id as i64)),
        draft,
    )
}

/// Plans the fetch of the shop with the given id.
pub fn get_shop(api_url: &str, api_key: &str, shop_id: i32) -> (plan: FetchPlan)
    ensures
        plan@ == planned_fetch(
            api_url@,
            api_key@,
            shop_path(shop_id as int),
            Resource::Shop(shop_id as i64),
        ),
{
    let path = shop_path_string(shop_id as i64);
    plan_fetch(api_url, api_key, path.as_str(), Resource::Shop(shop_id as i64))
}

/// Plans the fetch of the listing of shops.
pub fn list_shops(api_url: &str, api_key: &str) -> (plan: FetchPlan)
    ensures
        plan@ == planned_fetch(
            api_url@,
            api_key@,
            shop_list_path(),
            Resource::ShopList,
        ),
{
    let mut path = String::from_str(API_VERSION);
    path.append("/shops?limit=");
    append_decimal(&mut path, SHOP_LIST_LIMIT as i64);
    plan_fetch(api_url, api_key, path.as_str(), Resource::ShopList)
}

} // verus!
