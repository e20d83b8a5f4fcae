use bazaar_realm_client::cache::{Resource, Timestamp};
use bazaar_realm_client::error::{ClassifiedError, ServerError};
use bazaar_realm_client::interior_ref_list::{
    InteriorRef, InteriorRefList, RawInteriorRef, RawInteriorRefData, RawShelf,
    SavedInteriorRefList, Shelf,
};
use bazaar_realm_client::merchandise_list::{
    Merchandise, MerchandiseList, RawMerchandise, RawMerchandiseVec, SavedMerchandiseList,
};
use bazaar_realm_client::owner::{Owner, RawOwner, SavedOwner};
use bazaar_realm_client::result::{FFIError, FFIResult, FFIServerError};
use bazaar_realm_client::shop::{RawShop, RawShopVec, SavedShop, Shop};
use bazaar_realm_client::sync::Identified;
use bazaar_realm_client::transaction::{RawTransaction, SavedTransaction, Transaction};

fn time() -> Timestamp {
    Timestamp { secs: 1_604_000_000, nanos: 123 }
}

fn saved_shop(id: i32) -> SavedShop {
    SavedShop {
        id,
        name: "name".to_string(),
        owner_id: 2,
        description: Some("description".to_string()),
        gold: 100,
        shop_type: "general_store".to_string(),
        vendor_keywords: vec!["VendorNoSale".to_string(), "VendorItemKey".to_string()],
        vendor_keywords_exclude: true,
        created_at: time(),
        updated_at: time(),
    }
}

#[test]
fn shop_from_game_leaves_the_rest_to_the_server() {
    assert_eq!(
        Shop::from_game("Foo", "Bar"),
        Shop {
            name: "Foo".to_string(),
            owner_id: None,
            description: Some("Bar".to_string()),
            gold: None,
            shop_type: None,
            vendor_keywords: None,
            vendor_keywords_exclude: None,
        }
    );
    assert_eq!(Shop::from_game("", "").description, Some(String::new()));
}

#[test]
fn owner_from_game_takes_name_and_version() {
    assert_eq!(Owner::from_game("name", 7), Owner { name: "name".to_string(), mod_version: 7 });
    assert_eq!(Owner::from_game("", -1), Owner { name: String::new(), mod_version: -1 });
}

#[test]
fn raw_shop_from_a_saved_shop() {
    assert_eq!(
        RawShop::from(&saved_shop(3)),
        RawShop {
            id: 3,
            name: "name".to_string(),
            description: "description".to_string(),
            gold: 100,
            shop_type: "general_store".to_string(),
            vendor_keywords: vec!["VendorNoSale".to_string(), "VendorItemKey".to_string()],
            vendor_keywords_exclude: true,
        }
    );
}

#[test]
fn raw_shop_has_an_empty_description_for_none() {
    let mut shop = saved_shop(1);
    shop.description = None;
    assert_eq!(RawShop::from(&shop).description, "");
}

#[test]
fn raw_shop_empties_texts_that_hold_nul() {
    let mut shop = saved_shop(1);
    shop.name = "na\0me".to_string();
    shop.description = Some("\0".to_string());
    shop.shop_type = "general\0".to_string();
    shop.vendor_keywords = vec!["Vendor\0NoSale".to_string(), "VendorItemKey".to_string()];
    let raw = RawShop::from(&shop);
    assert_eq!(raw.name, "");
    assert_eq!(raw.description, "");
    assert_eq!(raw.shop_type, "");
    assert_eq!(raw.vendor_keywords, vec![String::new(), "VendorItemKey".to_string()]);
    assert_eq!(raw.gold, 100);
}

#[test]
fn raw_shop_vec_keeps_the_order() {
    let shops = vec![saved_shop(5), saved_shop(3), saved_shop(9)];
    let raw = RawShopVec::from(&shops);
    assert_eq!(raw.items.len(), 3);
    assert_eq!(raw.items[0], RawShop::from(&shops[0]));
    assert_eq!(raw.items[1].id, 3);
    assert_eq!(raw.items[2].id, 9);
    assert_eq!(RawShopVec::from(&Vec::new()).items.len(), 0);
}

#[test]
fn raw_owner_from_a_saved_owner() {
    let owner = SavedOwner {
        id: 4,
        name: "name".to_string(),
        mod_version: 2,
        created_at: time(),
        updated_at: time(),
    };
    assert_eq!(RawOwner::from(&owner), RawOwner { id: 4, name: "name".to_string(), mod_version: 2 });
    let owner = SavedOwner { name: "a\0b".to_string(), ..owner };
    assert_eq!(RawOwner::from(&owner).name, "");
}

fn raw_merchandise(keywords: Option<Vec<String>>) -> RawMerchandise {
    RawMerchandise {
        mod_name: "Skyrim.esm".to_string(),
        local_form_id: 11,
        name: "Iron Sword".to_string(),
        quantity: 2,
        form_type: 41,
        is_food: true,
        price: 100,
        keywords,
    }
}

#[test]
fn merchandise_from_game_copies_each_record() {
    let records =
        [raw_merchandise(Some(vec!["VendorItemWeapon".to_string()])), raw_merchandise(None)];
    let list = MerchandiseList::from_game(8, &records);
    assert_eq!(list.shop_id, 8);
    assert_eq!(list.owner_id, None);
    assert_eq!(list.form_list.len(), 2);
    assert_eq!(
        list.form_list[0],
        Merchandise {
            mod_name: "Skyrim.esm".to_string(),
            local_form_id: 11,
            name: "Iron Sword".to_string(),
            quantity: 2,
            form_type: 41,
            is_food: true,
            price: 100,
            keywords: vec!["VendorItemWeapon".to_string()],
        }
    );
    assert_eq!(list.form_list[1].keywords, Vec::<String>::new());
    assert_eq!(list.form_list[1], Merchandise::from_game(&records[1]));
    assert_eq!(MerchandiseList::from_game(1, &[]).form_list.len(), 0);
}

#[test]
fn raw_merchandise_always_has_a_list_of_keywords() {
    let item = Merchandise {
        mod_name: "Skyrim.esm".to_string(),
        local_form_id: 11,
        name: "Iron\0Sword".to_string(),
        quantity: 2,
        form_type: 41,
        is_food: false,
        price: 100,
        keywords: Vec::new(),
    };
    let raw = RawMerchandise::from(&item);
    assert_eq!(raw.keywords, Some(Vec::new()));
    assert_eq!(raw.name, "");
    assert_eq!(raw.mod_name, "Skyrim.esm");
    let list = SavedMerchandiseList {
        id: 1,
        shop_id: 2,
        owner_id: 3,
        form_list: vec![item.clone(), item],
        created_at: time(),
        updated_at: time(),
    };
    let raw_vec = RawMerchandiseVec::from(&list);
    assert_eq!(raw_vec.items, vec![raw.clone(), raw]);
}

fn raw_shelf(filter_form_type: u32, search: Option<&str>) -> RawShelf {
    RawShelf {
        shelf_type: 1,
        position_x: 1.5f32.to_bits(),
        position_y: (-2.0f32).to_bits(),
        position_z: 100f32.to_bits(),
        angle_x: 0f32.to_bits(),
        angle_y: f32::NAN.to_bits(),
        angle_z: 3.25f32.to_bits(),
        scale: 2,
        page: 3,
        filter_form_type,
        filter_is_food: true,
        search: search.map(|s| s.to_string()),
        sort_on: None,
        sort_asc: false,
    }
}

#[test]
fn shelf_filter_of_zero_is_no_filter() {
    assert_eq!(Shelf::from_game(&raw_shelf(0, None)).filter_form_type, None);
    assert_eq!(Shelf::from_game(&raw_shelf(1, None)).filter_form_type, Some(1));
    assert_eq!(Shelf::from_game(&raw_shelf(u32::MAX, None)).filter_form_type, Some(u32::MAX));
    let shelf = Shelf::from_game(&raw_shelf(0, Some("sword")));
    assert_eq!(RawShelf::from(&shelf), raw_shelf(0, Some("sword")));
    let shelf = Shelf::from_game(&raw_shelf(41, None));
    assert_eq!(RawShelf::from(&shelf).filter_form_type, 41);
}

#[test]
fn shelf_keeps_every_bit_of_its_numbers() {
    let raw = raw_shelf(7, Some("sword"));
    let shelf = Shelf::from_game(&raw);
    assert_eq!(f32::from_bits(shelf.position_x), 1.5);
    assert_eq!(f32::from_bits(shelf.position_y), -2.0);
    assert_eq!(shelf.angle_y, f32::NAN.to_bits());
    assert_eq!(shelf.search, Some("sword".to_string()));
    assert_eq!(shelf.sort_on, None);
    assert_eq!(shelf.scale, 2);
    assert_eq!(shelf.page, 3);
    assert_eq!(shelf.filter_is_food, true);
    assert_eq!(shelf.sort_asc, false);
}

#[test]
fn interior_ref_list_from_game_and_back() {
    let refs = [
        RawInteriorRef {
            base_mod_name: "Skyrim.esm".to_string(),
            base_local_form_id: 1,
            ref_mod_name: None,
            ref_local_form_id: 2,
            position_x: 100f32.to_bits(),
            position_y: 0f32.to_bits(),
            position_z: 100f32.to_bits(),
            angle_x: 0f32.to_bits(),
            angle_y: 0f32.to_bits(),
            angle_z: 0f32.to_bits(),
            scale: 1,
        },
        RawInteriorRef {
            base_mod_name: "Skyrim.esm".to_string(),
            base_local_form_id: 3,
            ref_mod_name: Some("BazaarRealm.esp".to_string()),
            ref_local_form_id: 4,
            position_x: 1f32.to_bits(),
            position_y: 2f32.to_bits(),
            position_z: 3f32.to_bits(),
            angle_x: 4f32.to_bits(),
            angle_y: 5f32.to_bits(),
            angle_z: 6f32.to_bits(),
            scale: 7,
        },
    ];
    let shelves = [raw_shelf(0, None)];
    let list = InteriorRefList::from_game(9, &refs, &shelves);
    assert_eq!(list.shop_id, 9);
    assert_eq!(list.owner_id, None);
    assert_eq!(list.ref_list.len(), 2);
    assert_eq!(list.shelves.len(), 1);
    assert_eq!(list.ref_list[0].ref_mod_name, None);
    assert_eq!(list.ref_list[1], InteriorRef::from_game(&refs[1]));
    assert_eq!(list.ref_list[1].ref_mod_name, Some("BazaarRealm.esp".to_string()));
    assert_eq!(list.ref_list[1].scale, 7);

    let saved = SavedInteriorRefList {
        id: 1,
        shop_id: 9,
        owner_id: 1,
        ref_list: list.ref_list,
        shelves: list.shelves,
        created_at: time(),
        updated_at: time(),
    };
    let data = RawInteriorRefData::from(&saved);
    assert_eq!(data.interior_ref_vec.items, refs.to_vec());
    assert_eq!(data.shelf_vec.items, shelves.to_vec());
    assert_eq!(RawInteriorRef::from(&saved.ref_list[0]), refs[0]);
}

#[test]
fn raw_interior_ref_empties_texts_that_hold_nul() {
    let placed = InteriorRef {
        base_mod_name: "Sky\0rim.esm".to_string(),
        base_local_form_id: 1,
        ref_mod_name: Some("Bazaar\0Realm.esp".to_string()),
        ref_local_form_id: 2,
        position_x: 0,
        position_y: 0,
        position_z: 0,
        angle_x: 0,
        angle_y: 0,
        angle_z: 0,
        scale: 1,
    };
    let raw = RawInteriorRef::from(&placed);
    assert_eq!(raw.base_mod_name, "");
    assert_eq!(raw.ref_mod_name, Some(String::new()));
}

#[test]
fn transaction_from_a_record_of_the_host() {
    let raw = RawTransaction {
        id: 99,
        shop_id: 1,
        mod_name: "Skyrim.esm".to_string(),
        local_form_id: 2,
        name: "Item".to_string(),
        form_type: 41,
        is_food: false,
        price: 100,
        is_sell: true,
        quantity: 3,
        amount: 300,
        keywords: None,
    };
    assert_eq!(
        Transaction::from(&raw),
        Transaction {
            shop_id: 1,
            owner_id: None,
            mod_name: "Skyrim.esm".to_string(),
            local_form_id: 2,
            name: "Item".to_string(),
            form_type: 41,
            is_food: false,
            price: 100,
            is_sell: true,
            quantity: 3,
            amount: 300,
            keywords: Vec::new(),
        }
    );
}

#[test]
fn raw_transaction_from_a_saved_transaction() {
    let saved = SavedTransaction {
        id: 5,
        owner_id: 6,
        shop_id: 7,
        mod_name: "Skyrim.esm".to_string(),
        local_form_id: 2,
        name: "It\0em".to_string(),
        form_type: 41,
        is_food: true,
        price: 100,
        is_sell: false,
        quantity: 3,
        amount: 300,
        keywords: vec!["VendorItemMisc".to_string()],
        created_at: time(),
        updated_at: time(),
    };
    assert_eq!(
        RawTransaction::from(&saved),
        RawTransaction {
            id: 5,
            shop_id: 7,
            mod_name: "Skyrim.esm".to_string(),
            local_form_id: 2,
            name: String::new(),
            form_type: 41,
            is_food: true,
            price: 100,
            is_sell: false,
            quantity: 3,
            amount: 300,
            keywords: Some(vec!["VendorItemMisc".to_string()]),
        }
    );
}

#[test]
fn saved_records_are_cached_under_their_own_id() {
    assert_eq!(saved_shop(12).resource(), Resource::Shop(12));
    assert_eq!(saved_shop(-1).resource(), Resource::Shop(-1));
    let owner = SavedOwner {
        id: 4,
        name: "name".to_string(),
        mod_version: 2,
        created_at: time(),
        updated_at: time(),
    };
    assert_eq!(owner.resource(), Resource::Owner(4));
    let list = SavedMerchandiseList {
        id: 6,
        shop_id: 2,
        owner_id: 3,
        form_list: Vec::new(),
        created_at: time(),
        updated_at: time(),
    };
    assert_eq!(list.resource(), Resource::MerchandiseList(6));
    let interior = SavedInteriorRefList {
        id: 7,
        shop_id: 2,
        owner_id: 3,
        ref_list: Vec::new(),
        shelves: Vec::new(),
        created_at: time(),
        updated_at: time(),
    };
    assert_eq!(interior.resource(), Resource::InteriorRefList(7));
}

#[test]
fn ffi_error_keeps_the_two_classes_apart() {
    let server = ServerError {
        status: 500,
        title: "Internal Server Error".to_string(),
        detail: Some("disk full".to_string()),
    };
    assert_eq!(
        FFIServerError::from(&server),
        FFIServerError {
            status: 500,
            title: "Internal Server Error".to_string(),
            detail: Some("disk full".to_string()),
        }
    );
    assert_eq!(
        FFIError::from(ClassifiedError::ServerError(server.clone())),
        FFIError::Server(FFIServerError::from(&server))
    );
    assert_eq!(
        FFIError::from(ClassifiedError::network("connection refused".to_string())),
        FFIError::Network("connection refused".to_string())
    );
}

#[test]
fn ffi_result_is_the_value_or_the_failure() {
    assert_eq!(FFIResult::from(Ok(true)), FFIResult::Okay(true));
    let failed: Result<i32, ClassifiedError> =
        Err(ClassifiedError::network("connection refused".to_string()));
    assert_eq!(
        FFIResult::from(failed),
        FFIResult::Error(FFIError::Network("connection refused".to_string()))
    );
}
