//! Transactions.

use vstd::prelude::*;
use vstd::string::*;

use crate::cache::{API_VERSION, Resource, Timestamp};
use crate::sync::{Identified, Method, MutationPlan, Target, plan_mutation, plans_request};
use crate::text::{c_string_text, c_string_texts, c_text, c_texts, copy_texts, texts};

verus! {

/// The draft of a transaction, as it is sent.
#[derive(Debug, Clone, PartialEq, Eq)]
pub struct Transaction {
    pub shop_id: i32,
    pub owner_id: Option<i32>,
    pub mod_name: String,
    pub local_form_id: i32,
    pub name: String,
    pub form_type: i32,
    pub is_food: bool,
    pub price: i32,
    pub is_sell: bool,
    pub quantity: i32,
    pub amount: i32,
    pub keywords: Vec<String>,
}

/// A transaction as the server saved it.
#[derive(Debug, Clone, PartialEq, Eq)]
pub struct SavedTransaction {
    pub id: i32,
    pub owner_id: i32,
    pub shop_id: i32,
    pub mod_name: String,
    pub local_form_id: i32,
    pub name: String,
    pub form_type: i32,
    pub is_food: bool,
    pub price: i32,
    pub is_sell: bool,
    pub quantity: i32,
    pub amount: i32,
    pub keywords: Vec<String>,
    pub created_at: Timestamp,
    pub updated_at: Timestamp,
}

/// A transaction as it crosses the boundary. `keywords` is `None` where
/// the host passes no list at all.
#[derive(Debug, Clone, PartialEq, Eq)]
pub struct RawTransaction {
    pub id: i32,
    pub shop_id: i32,
    pub mod_name: String,
    pub local_form_id: i32,
    pub name: String,
    pub form_type: i32,
    pub is_food: bool,
    pub price: i32,
    pub is_sell: bool,
    pub quantity: i32,
    pub amount: i32,
    pub keywords: Option<Vec<String>>,
}

/// The transactions that are handed to the host for a listing.
#[derive(Debug, Clone, PartialEq, Eq)]
pub struct RawTransactionVec {
    pub items: Vec<RawTransaction>,
}

/// Whether `draft` is what the host's record `raw` stands for: the same
/// fields but the id, no keywords where the host passed no list, and the
/// owner left to the server.
pub open spec fn taken_from_game(raw: RawTransaction, draft: Transaction) -> bool {
    &&& draft.shop_id == raw.shop_id
    &&& draft.owner_id is None
    &&& draft.mod_name@ == raw.mod_name@
    &&& draft.local_form_id == raw.local_form_id
    &&& draft.name@ == raw.name@
    &&& draft.form_type == raw.form_type
    &&& draft.is_food == raw.is_food
    &&& draft.price == raw.price
    &&& draft.is_sell == raw.is_sell
    &&& draft.quantity == raw.quantity
    &&& draft.amount == raw.amount
    &&& texts(draft.keywords@) == match raw.keywords {
        Some(keywords) => texts(keywords@),
        None => Seq::empty(),
    }
}

/// Whether `raw` is what is handed to the host for `saved`: the same
/// numbers, each text as it can cross the boundary, and always a list of
/// keywords.
pub open spec fn handed_out(saved: SavedTransaction, raw: RawTransaction) -> bool {
    &&& raw.id == saved.id
    &&& raw.shop_id == saved.shop_id
    &&& raw.mod_name@ == c_text(saved.mod_name@)
    &&& raw.local_form_id == saved.local_form_id
    &&& raw.name@ == c_text(saved.name@)
    &&& raw.form_type == saved.form_type
    &&& raw.is_food == saved.is_food
    &&& raw.price == saved.price
    &&& raw.is_sell == saved.is_sell
    &&& raw.quantity == saved.quantity
    &&& raw.amount == saved.amount
    &&& raw.keywords matches Some(keywords) && texts(keywords@) == c_texts(texts(saved.keywords@))
}

impl Transaction {
    /// The draft that a record of the host stands for.
    pub fn from(raw_transaction: &RawTransaction) -> (draft: Transaction)
        ensures
            taken_from_game(*raw_transaction, draft),
    {
        let keywords = match &raw_transaction.keywords {
            Some(keywords) => copy_texts(keywords),
            None => Vec::new(),
        };
        assert(raw_transaction.keywords is None ==> texts(keywords@) =~= Seq::empty());
        Transaction {
            shop_id: raw_transaction.shop_id,
            owner_id: None,
            mod_name: raw_transaction.mod_name.clone(),
            local_form_id: raw_transaction.local_form_id,
            name: raw_transaction.name.clone(),
            form_type: raw_transaction.form_type,
            is_food: raw_transaction.is_food,
            price: raw_transaction.price,
            is_sell: raw_transaction.is_sell,
            quantity: raw_transaction.quantity,
            amount: raw_transaction.amount,
            keywords,
        }
    }
}

impl RawTransaction {
    /// The record that is handed to the host for a saved transaction.
    pub fn from(transaction: &SavedTransaction) -> (raw: RawTransaction)
        ensures
            handed_out(*transaction, raw),
    {
        RawTransaction {
            id: transaction.id,
            shop_id: transaction.shop_id,
            mod_name: c_string_text(transaction.mod_name.as_str()),
            local_form_id: transaction.local_form_id,
            name: c_string_text(transaction.name.as_str()),
            form_type: transaction.form_type,
            is_food: transaction.is_food,
            price: transaction.price,
            is_sell: transaction.is_sell,
            quantity: transaction.quantity,
            amount: transaction.amount,
            keywords: Some(c_string_texts(&transaction.keywords)),
        }
    }
}

impl Identified for SavedTransaction {
    open spec fn cache_resource(&self) -> Resource {
        Resource::Transaction(self.id as i64)
    }

    fn resource(&self) -> (r: Resource) {
        Resource::Transaction(self.id as i64)
    }
}

/// The path of the collection of transactions.
pub open spec fn transactions_path() -> Seq<char> {
    API_VERSION@ + "/transactions"@
}

/// Plans the creation of a transaction: a `POST` of the draft to the
/// collection. The saved transaction is cached under its own id.
pub fn create_transaction(api_url: &str, api_key: &str, raw_transaction: &RawTransaction) -> (plan:
    MutationPlan<Transaction>)
    ensures
        plans_request(
            plan, Method::Post, api_url@, api_key@, transactions_path(), Target::OfSaved),
        taken_from_game(*raw_transaction, plan.draft),
{
    let mut path = String::from_str(API_VERSION);
    path.append("/transactions");
    let draft = Transaction::from(raw_transaction);
    plan_mutation(Method::Post, api_url, api_key, path.as_str(), Target::OfSaved, draft)
}

} // verus!
