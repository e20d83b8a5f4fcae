use reqwest::header::{HeaderMap, HeaderValue};

use bazaar_realm_client::cache::{
    file_cache_dir, header_text_from, header_time_from, metadata_from_headers, CacheKey, Metadata,
    Resource, Timestamp, API_VERSION, CACHE_ROOT,
};

fn headers(pairs: &[(&'static str, &'static str)]) -> HeaderMap {
    let mut headers = HeaderMap::new();
    for (name, value) in pairs {
        headers.append(*name, HeaderValue::from_static(value));
    }
    headers
}

#[test]
fn cache_dir_holds_root_encoded_origin_and_version() {
    assert_eq!(
        file_cache_dir("http://a.example"),
        "Data/SKSE/Plugins/BazaarRealmCache/aHR0cDovL2EuZXhhbXBsZQ/v1"
    );
    assert_eq!(API_VERSION, "v1");
    assert_eq!(CACHE_ROOT, "Data/SKSE/Plugins/BazaarRealmCache");
}

#[test]
fn cache_dir_of_the_empty_origin() {
    assert_eq!(file_cache_dir(""), "Data/SKSE/Plugins/BazaarRealmCache//v1");
}

#[test]
fn encoding_has_no_padding_for_any_remainder() {
    assert_eq!(file_cache_dir("a"), "Data/SKSE/Plugins/BazaarRealmCache/YQ/v1");
    assert_eq!(file_cache_dir("ab"), "Data/SKSE/Plugins/BazaarRealmCache/YWI/v1");
    assert_eq!(file_cache_dir("abc"), "Data/SKSE/Plugins/BazaarRealmCache/YWJj/v1");
    assert_eq!(file_cache_dir("abcd"), "Data/SKSE/Plugins/BazaarRealmCache/YWJjZA/v1");
}

#[test]
fn encoding_uses_the_url_safe_alphabet() {
    // Bytes whose standard encoding would hold `+` and `/`.
    assert_eq!(file_cache_dir("~~~"), "Data/SKSE/Plugins/BazaarRealmCache/fn5-/v1");
    assert_eq!(file_cache_dir("???"), "Data/SKSE/Plugins/BazaarRealmCache/Pz8_/v1");
    assert_eq!(file_cache_dir("\u{fb}\u{ff}"), "Data/SKSE/Plugins/BazaarRealmCache/w7vDvw/v1");
}

#[test]
fn encoding_agrees_with_base64_on_many_origins() {
    let mut origin = String::new();
    for i in 0..200u32 {
        origin.push(char::from_u32(0x20 + (i * 7) % 0x250).unwrap());
        let expected = format!(
            "Data/SKSE/Plugins/BazaarRealmCache/{}/v1",
            base64::encode_config(&origin, base64::URL_SAFE_NO_PAD)
        );
        assert_eq!(file_cache_dir(&origin), expected);
    }
}

#[test]
fn distinct_origins_have_distinct_cache_dirs() {
    let origins = [
        "http://a.example",
        "http://a.example.evil",
        "http://a.example/",
        "https://a.example",
        "http://a.exampl",
        "http://b.example",
        "",
    ];
    for (i, a) in origins.iter().enumerate() {
        for (j, b) in origins.iter().enumerate() {
            assert_eq!(i == j, file_cache_dir(a) == file_cache_dir(b));
        }
    }
}

#[test]
fn file_names_of_each_resource() {
    assert_eq!(Resource::Shop(1).body_file(), "shop_1.bin");
    assert_eq!(Resource::Shop(1).metadata_file(), "shop_1_metadata.json");
    assert_eq!(Resource::ShopList.body_file(), "shops.bin");
    assert_eq!(Resource::ShopList.metadata_file(), "shops_metadata.json");
    assert_eq!(Resource::Owner(12).body_file(), "owner_12.bin");
    assert_eq!(Resource::Owner(12).metadata_file(), "owner_12_metadata.json");
    assert_eq!(Resource::MerchandiseList(3).body_file(), "merchandise_list_3.bin");
    assert_eq!(Resource::MerchandiseList(3).metadata_file(), "merchandise_list_3_metadata.json");
    assert_eq!(Resource::ShopMerchandiseList(4).body_file(), "shop_4_merchandise_list.bin");
    assert_eq!(
        Resource::ShopMerchandiseList(4).metadata_file(),
        "shop_4_merchandise_list_metadata.json"
    );
    assert_eq!(Resource::InteriorRefList(5).body_file(), "interior_ref_list_5.bin");
    assert_eq!(Resource::InteriorRefList(5).metadata_file(), "interior_ref_list_5_metadata.json");
    assert_eq!(Resource::ShopInteriorRefList(6).body_file(), "shop_6_interior_ref_list.bin");
    assert_eq!(
        Resource::ShopInteriorRefList(6).metadata_file(),
        "shop_6_interior_ref_list_metadata.json"
    );
    assert_eq!(Resource::Transaction(7).body_file(), "transaction_7.bin");
    assert_eq!(Resource::Transaction(7).metadata_file(), "transaction_7_metadata.json");
}

#[test]
fn file_names_render_ids_in_decimal() {
    assert_eq!(Resource::Shop(0).body_file(), "shop_0.bin");
    assert_eq!(Resource::Shop(-1).body_file(), "shop_-1.bin");
    assert_eq!(Resource::Shop(10).body_file(), "shop_10.bin");
    assert_eq!(Resource::Shop(2147483647).body_file(), "shop_2147483647.bin");
    assert_eq!(Resource::Shop(-2147483648).body_file(), "shop_-2147483648.bin");
    assert_eq!(Resource::Shop(4294967295).body_file(), "shop_4294967295.bin");
    assert_eq!(Resource::Shop(i64::MAX).body_file(), "shop_9223372036854775807.bin");
    assert_eq!(Resource::Shop(i64::MIN).body_file(), "shop_-9223372036854775808.bin");
}

#[test]
fn miss_message_names_the_body_file() {
    assert_eq!(
        Resource::Shop(1).miss_message(),
        "Object not found in API or in cache: shop_1.bin"
    );
    assert_eq!(
        Resource::ShopList.miss_message(),
        "Object not found in API or in cache: shops.bin"
    );
}

#[test]
fn paths_of_a_key() {
    let key = CacheKey::new("http://a.example", Resource::Shop(1));
    assert_eq!(key.api_url, "http://a.example");
    assert_eq!(key.resource, Resource::Shop(1));
    assert_eq!(
        key.body_path(),
        "Data/SKSE/Plugins/BazaarRealmCache/aHR0cDovL2EuZXhhbXBsZQ/v1/shop_1.bin"
    );
    assert_eq!(
        key.metadata_path(),
        "Data/SKSE/Plugins/BazaarRealmCache/aHR0cDovL2EuZXhhbXBsZQ/v1/shop_1_metadata.json"
    );
    assert_ne!(key.body_path(), key.metadata_path());
}

#[test]
fn metadata_takes_the_first_value_of_a_name() {
    let now = Timestamp { secs: 1_600_000_000, nanos: 5 };
    let headers = headers(&[
        ("content-type", "application/octet-stream"),
        ("etag", "\"first\""),
        ("etag", "\"second\""),
    ]);
    assert_eq!(
        metadata_from_headers(&headers, now),
        Metadata { etag: Some("\"first\"".to_string()), date: None }
    );
}

#[test]
fn metadata_takes_token_and_time_from_the_headers() {
    let now = Timestamp { secs: 1_600_000_000, nanos: 5 };
    let headers = headers(&[("etag", "\"abc\""), ("date", "2020-10-31T12:00:00Z")]);
    assert_eq!(
        metadata_from_headers(&headers, now),
        Metadata {
            etag: Some("\"abc\"".to_string()),
            date: Some(Timestamp { secs: 1_604_145_600, nanos: 0 }),
        }
    );
}

#[test]
fn metadata_finds_names_in_any_case() {
    let now = Timestamp { secs: 1, nanos: 2 };
    let headers = headers(&[("ETag", "\"abc\"")]);
    assert_eq!(metadata_from_headers(&headers, now).etag, Some("\"abc\"".to_string()));
}

#[test]
fn metadata_time_keeps_the_fraction_and_the_offset() {
    let now = Timestamp { secs: 0, nanos: 0 };
    let headers = headers(&[("date", "2020-10-31 13:00:00.25+01:00")]);
    assert_eq!(
        metadata_from_headers(&headers, now).date,
        Some(Timestamp { secs: 1_604_145_600, nanos: 250_000_000 })
    );
}

#[test]
fn metadata_time_that_does_not_parse_is_now() {
    let now = Timestamp { secs: 1_600_000_000, nanos: 5 };
    let http_date = headers(&[("date", "Sat, 31 Oct 2020 12:00:00 GMT")]);
    assert_eq!(metadata_from_headers(&http_date, now), Metadata { etag: None, date: Some(now) });
    let empty = headers(&[("date", "")]);
    assert_eq!(metadata_from_headers(&empty, now).date, Some(now));
}

#[test]
fn metadata_of_a_value_that_is_no_text_is_the_empty_text() {
    let now = Timestamp { secs: 1_600_000_000, nanos: 5 };
    let mut headers = HeaderMap::new();
    headers.insert("etag", HeaderValue::from_bytes(&[0xfa, 0xfb]).unwrap());
    headers.insert("date", HeaderValue::from_bytes(&[0xfa, 0xfb]).unwrap());
    assert_eq!(
        metadata_from_headers(&headers, now),
        Metadata { etag: Some(String::new()), date: Some(now) }
    );
}

#[test]
fn metadata_without_headers_is_empty() {
    let now = Timestamp { secs: 1, nanos: 2 };
    assert_eq!(metadata_from_headers(&HeaderMap::new(), now), Metadata { etag: None, date: None });
}

#[test]
fn header_text_and_time_from_what_was_found() {
    assert_eq!(header_text_from(None), None);
    assert_eq!(header_text_from(Some(None)), Some(String::new()));
    assert_eq!(header_text_from(Some(Some("abc".to_string()))), Some("abc".to_string()));
    let now = Timestamp { secs: 1, nanos: 2 };
    let then = Timestamp { secs: 3, nanos: 4 };
    assert_eq!(header_time_from(None, now), now);
    assert_eq!(header_time_from(Some(then), now), then);
}

#[test]
fn distinct_keys_share_no_file() {
    let origins = ["http://a.example", "http://a.example.evil", "http://a.example/v1"];
    let resources = [
        Resource::Shop(1),
        Resource::Shop(11),
        Resource::Shop(-1),
        Resource::ShopList,
        Resource::Owner(1),
        Resource::MerchandiseList(1),
        Resource::ShopMerchandiseList(1),
        Resource::ShopMerchandiseList(11),
        Resource::InteriorRefList(1),
        Resource::ShopInteriorRefList(1),
        Resource::Transaction(1),
    ];
    let mut paths = Vec::new();
    for origin in origins {
        for resource in resources {
            let key = CacheKey::new(origin, resource);
            paths.push(key.body_path());
            paths.push(key.metadata_path());
        }
    }
    for (i, a) in paths.iter().enumerate() {
        for (j, b) in paths.iter().enumerate() {
            assert_eq!(i == j, a == b);
        }
    }
}
