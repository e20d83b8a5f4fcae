//! A key names its files and no others: two origins that differ have
//! different cache directories, two keys that differ in origin or in
//! resource share no file, and no body file is a metadata file.

use vstd::prelude::*;

use vstd::utf8::*;

use crate::cache::{
    API_VERSION,
    CACHE_ROOT,
    CacheKeyView,
    Resource,
    base64_url,
    body_file,
    body_path,
    cache_dir_path,
    file_stem,
    metadata_file,
    metadata_path,
    sextets,
    url_safe_char,
};
use crate::text::{decimal, decimal_digits, digits};

verus! {

/// The number of six-bit values that `n` bytes are cut into.
pub open spec fn sextet_count(n: nat) -> nat {
    (n / 3) * 4 + if n % 3 == 0 {
        0nat
    } else {
        (n % 3 + 1) as nat
    }
}

proof fn lemma_sextets_len(bytes: Seq<u8>)
    ensures
        sextets(bytes).len() == sextet_count(bytes.len()),
    decreases bytes.len(),
{
    if bytes.len() >= 3 {
        lemma_sextets_len(bytes.skip(3));
    }
}

proof fn lemma_sextet_count_injective(m: nat, n: nat)
    requires
        sextet_count(m) == sextet_count(n),
    ensures
        m == n,
{
}

proof fn lemma_single_bits(a0: u8, b0: u8)
    requires
        a0 >> 2 == b0 >> 2,
        (a0 << 4) & 0x3f == (b0 << 4) & 0x3f,
    ensures
        a0 == b0,
{
    assert(a0 >> 2 == b0 >> 2 && (a0 << 4) & 0x3f == (b0 << 4) & 0x3f ==> a0 == b0)
        by (bit_vector);
}

proof fn lemma_pair_bits(a0: u8, a1: u8, b0: u8, b1: u8)
    requires
        a0 >> 2 == b0 >> 2,
        (a0 << 4 | a1 >> 4) & 0x3f == (b0 << 4 | b1 >> 4) & 0x3f,
        (a1 << 2) & 0x3f == (b1 << 2) & 0x3f,
    ensures
        a0 == b0,
        a1 == b1,
{
    assert(a0 >> 2 == b0 >> 2 && (a0 << 4 | a1 >> 4) & 0x3f == (b0 << 4 | b1 >> 4) & 0x3f && (a1
        << 2) & 0x3f == (b1 << 2) & 0x3f ==> a0 == b0 && a1 == b1) by (bit_vector);
}

proof fn lemma_triple_bits(a0: u8, a1: u8, a2: u8, b0: u8, b1: u8, b2: u8)
    requires
        a0 >> 2 == b0 >> 2,
        (a0 << 4 | a1 >> 4) & 0x3f == (b0 << 4 | b1 >> 4) & 0x3f,
        (a1 << 2 | a2 >> 6) & 0x3f == (b1 << 2 | b2 >> 6) & 0x3f,
        a2 & 0x3f == b2 & 0x3f,
    ensures
        a0 == b0,
        a1 == b1,
        a2 == b2,
{
    assert(a0 >> 2 == b0 >> 2 && (a0 << 4 | a1 >> 4) & 0x3f == (b0 << 4 | b1 >> 4) & 0x3f && (a1
        << 2 | a2 >> 6) & 0x3f == (b1 << 2 | b2 >> 6) & 0x3f && a2 & 0x3f == b2 & 0x3f ==> a0
        == b0 && a1 == b1 && a2 == b2) by (bit_vector);
}

/// Every value that a byte string is cut into has six bits.
pub proof fn lemma_sextets_bound(bytes: Seq<u8>)
    ensures
        forall|i: int| 0 <= i < sextets(bytes).len() ==> #[trigger] sextets(bytes)[i] < 64,
    decreases bytes.len(),
{
    assert(forall|x: u8| #[trigger] (x >> 2) < 64) by (bit_vector);
    assert(forall|x: u8| #[trigger] (x & 0x3f) < 64) by (bit_vector);
    let s = sextets(bytes);
    if bytes.len() >= 3 {
        let rest = sextets(bytes.skip(3));
        lemma_sextets_bound(bytes.skip(3));
        assert forall|i: int| 0 <= i < s.len() implies #[trigger] s[i] < 64 by {}
    } else {
        assert forall|i: int| 0 <= i < s.len() implies #[trigger] s[i] < 64 by {}
    }
}

/// Two byte strings that are cut into the same six-bit values are equal.
pub proof fn lemma_sextets_injective(a: Seq<u8>, b: Seq<u8>)
    requires
        sextets(a) == sextets(b),
    ensures
        a == b,
    decreases a.len(),
{
    lemma_sextets_len(a);
    lemma_sextets_len(b);
    lemma_sextet_count_injective(a.len(), b.len());
    let sa = sextets(a);
    let sb = sextets(b);
    if a.len() == 0 {
    } else if a.len() == 1 {
        lemma_single_bits(a[0], b[0]);
    } else if a.len() == 2 {
        lemma_pair_bits(a[0], a[1], b[0], b[1]);
    } else {
        assert(sa[0] == sb[0] && sa[1] == sb[1] && sa[2] == sb[2] && sa[3] == sb[3]);
        lemma_triple_bits(a[0], a[1], a[2], b[0], b[1], b[2]);
        assert(sextets(a.skip(3)) =~= sa.skip(4));
        assert(sextets(b.skip(3)) =~= sb.skip(4));
        lemma_sextets_injective(a.skip(3), b.skip(3));
        assert forall|i: int| 0 <= i < a.len() implies a[i] == b[i] by {
            if i >= 3 {
                assert(b[i] == b.skip(3)[i - 3]);
            }
        }
    }
}

/// Two six-bit values with the same character are equal.
pub proof fn lemma_url_safe_char_injective(v: u8, w: u8)
    requires
        v < 64,
        w < 64,
        url_safe_char(v) == url_safe_char(w),
    ensures
        v == w,
{
}

/// The encoding loses nothing: equal encodings come from equal bytes.
pub proof fn lemma_base64_url_injective(a: Seq<u8>, b: Seq<u8>)
    requires
        base64_url(a) == base64_url(b),
    ensures
        a == b,
{
    let sa = sextets(a);
    let sb = sextets(b);
    lemma_sextets_bound(a);
    lemma_sextets_bound(b);
    assert(sb.len() == base64_url(b).len());
    assert forall|i: int| 0 <= i < sa.len() implies sa[i] == sb[i] by {
        assert(base64_url(b)[i] == url_safe_char(sb[i]));
        lemma_url_safe_char_injective(sa[i], sb[i]);
    }
    assert(sa =~= sb);
    lemma_sextets_injective(a, b);
}

/// Distinct API origins have distinct cache directories, whatever part of
/// their text they share.
pub proof fn lemma_cache_dir_injective(a: Seq<char>, b: Seq<char>)
    requires
        a != b,
    ensures
        cache_dir_path(a) != cache_dir_path(b),
{
    let ea = base64_url(encode_utf8(a));
    let eb = base64_url(encode_utf8(b));
    let head = CACHE_ROOT@ + "/"@;
    let tail = "/"@ + API_VERSION@;
    if cache_dir_path(a) == cache_dir_path(b) {
        assert(cache_dir_path(b) =~= head + eb + tail);
        assert forall|i: int| 0 <= i < ea.len() implies ea[i] == eb[i] by {
            assert(eb[i] == (head + eb + tail)[head.len() + i]);
        }
        assert(ea =~= eb);
        lemma_base64_url_injective(encode_utf8(a), encode_utf8(b));
        encode_utf8_decode_utf8(a);
        encode_utf8_decode_utf8(b);
    }
}

/// Whether a character is one of the ten digits.
pub open spec fn is_digit(c: char) -> bool {
    '0' <= c <= '9'
}

/// The number that a string of digits reads as.
pub open spec fn digits_value(s: Seq<char>) -> nat
    decreases s.len(),
{
    if s.len() == 0 {
        0
    } else {
        digits_value(s.drop_last()) * 10 + (s.last() as u32 - '0' as u32) as nat
    }
}

proof fn lemma_digit(d: int)
    requires
        0 <= d < 10,
    ensures
        is_digit(digits()[d]),
        digits()[d] as u32 - '0' as u32 == d,
{
}

/// The rendering of a natural number is made of digits, is not empty, and
/// reads as that number.
pub proof fn lemma_decimal_digits(n: nat)
    ensures
        decimal_digits(n).len() > 0,
        forall|i: int|
            0 <= i < decimal_digits(n).len() ==> is_digit(#[trigger] decimal_digits(n)[i]),
        digits_value(decimal_digits(n)) == n,
    decreases n,
{
    let s = decimal_digits(n);
    if n < 10 {
        lemma_digit(n as int);
        assert(digits_value(s.drop_last()) == 0);
    } else {
        lemma_decimal_digits(n / 10);
        lemma_digit((n % 10) as int);
        assert(s.drop_last() =~= decimal_digits(n / 10));
    }
}

/// Two integers with the same rendering are equal.
pub proof fn lemma_decimal_injective(a: int, b: int)
    requires
        decimal(a) == decimal(b),
    ensures
        a == b,
{
    let da = decimal_digits(if a < 0 { (-a) as nat } else { a as nat });
    let db = decimal_digits(if b < 0 { (-b) as nat } else { b as nat });
    lemma_decimal_digits(if a < 0 { (-a) as nat } else { a as nat });
    lemma_decimal_digits(if b < 0 { (-b) as nat } else { b as nat });
    if a < 0 {
        assert(decimal(a)[0] == '-');
        assert(da =~= decimal(a).drop_first());
        assert(db =~= decimal(b).drop_first());
    } else {
        assert(decimal(a)[0] == da[0]);
    }
}

/// Whether a text holds no `/`.
pub open spec fn no_slash(s: Seq<char>) -> bool {
    forall|i: int| 0 <= i < s.len() ==> #[trigger] s[i] != '/'
}

/// The rendering of an integer holds no `/` and ends in a digit.
pub proof fn lemma_decimal_shape(n: int)
    ensures
        no_slash(decimal(n)),
        decimal(n).len() > 0,
        is_digit(decimal(n).last()),
{
    lemma_decimal_digits(if n < 0 { (-n) as nat } else { n as nat });
}

proof fn lemma_no_slash_concat(a: Seq<char>, b: Seq<char>)
    requires
        no_slash(a),
        no_slash(b),
    ensures
        no_slash(a + b),
{
    assert forall|i: int| 0 <= i < (a + b).len() implies #[trigger] (a + b)[i] != '/' by {}
}

proof fn lemma_literals()
    ensures
        "shop_"@ == seq!['s', 'h', 'o', 'p', '_'],
        "shops"@ == seq!['s', 'h', 'o', 'p', 's'],
        "owner_"@.len() == 6,
        "owner_"@[0] == 'o',
        no_slash("owner_"@),
        "merchandise_list_"@.len() == 17,
        "merchandise_list_"@[0] == 'm',
        no_slash("merchandise_list_"@),
        "_merchandise_list"@.len() == 17,
        "_merchandise_list"@[0] == '_',
        "_merchandise_list"@[16] == 't',
        no_slash("_merchandise_list"@),
        "interior_ref_list_"@.len() == 18,
        "interior_ref_list_"@[0] == 'i',
        no_slash("interior_ref_list_"@),
        "_interior_ref_list"@.len() == 18,
        "_interior_ref_list"@[1] == 'i',
        "_interior_ref_list"@[17] == 't',
        no_slash("_interior_ref_list"@),
        "transaction_"@.len() == 12,
        "transaction_"@[0] == 't',
        no_slash("transaction_"@),
        ".bin"@ == seq!['.', 'b', 'i', 'n'],
        "_metadata.json"@.len() == 14,
        "_metadata.json"@[12] == 'o',
        no_slash("_metadata.json"@),
{
    reveal_strlit("shop_");
    reveal_strlit("shops");
    reveal_strlit("owner_");
    reveal_strlit("merchandise_list_");
    reveal_strlit("_merchandise_list");
    reveal_strlit("interior_ref_list_");
    reveal_strlit("_interior_ref_list");
    reveal_strlit("transaction_");
    reveal_strlit(".bin");
    reveal_strlit("_metadata.json");
}

/// The id in a resource, where it has one.
pub open spec fn resource_id(resource: Resource) -> int {
    match resource {
        Resource::Shop(id) => id as int,
        Resource::ShopList => 0,
        Resource::Owner(id) => id as int,
        Resource::MerchandiseList(id) => id as int,
        Resource::ShopMerchandiseList(id) => id as int,
        Resource::InteriorRefList(id) => id as int,
        Resource::ShopInteriorRefList(id) => id as int,
        Resource::Transaction(id) => id as int,
    }
}

/// The text before the id in the file name of a resource.
pub open spec fn stem_head(resource: Resource) -> Seq<char> {
    match resource {
        Resource::Shop(_) => "shop_"@,
        Resource::ShopList => "shops"@,
        Resource::Owner(_) => "owner_"@,
        Resource::MerchandiseList(_) => "merchandise_list_"@,
        Resource::ShopMerchandiseList(_) => "shop_"@,
        Resource::InteriorRefList(_) => "interior_ref_list_"@,
        Resource::ShopInteriorRefList(_) => "shop_"@,
        Resource::Transaction(_) => "transaction_"@,
    }
}

/// The text after the id in the file name of a resource.
pub open spec fn stem_tail(resource: Resource) -> Seq<char> {
    match resource {
        Resource::ShopMerchandiseList(_) => "_merchandise_list"@,
        Resource::ShopInteriorRefList(_) => "_interior_ref_list"@,
        _ => Seq::empty(),
    }
}

/// The id as it stands in the file name of a resource: nothing for the
/// listing of shops, which has none.
pub open spec fn stem_id(resource: Resource) -> Seq<char> {
    match resource {
        Resource::ShopList => Seq::empty(),
        _ => decimal(resource_id(resource)),
    }
}

proof fn lemma_stem_parts(resource: Resource)
    ensures
        file_stem(resource) == stem_head(resource) + stem_id(resource) + stem_tail(resource),
        no_slash(file_stem(resource)),
        no_slash(body_file(resource)),
        no_slash(metadata_file(resource)),
{
    lemma_literals();
    let head = stem_head(resource);
    let id = stem_id(resource);
    let tail = stem_tail(resource);
    if !(resource is ShopList) {
        lemma_decimal_shape(resource_id(resource));
    }
    lemma_no_slash_concat(head, id);
    lemma_no_slash_concat(head + id, tail);
    lemma_no_slash_concat(file_stem(resource), ".bin"@);
    lemma_no_slash_concat(file_stem(resource), "_metadata.json"@);
}

/// Two resources with the same file name are the same resource.
pub proof fn lemma_file_stem_injective(a: Resource, b: Resource)
    requires
        file_stem(a) == file_stem(b),
    ensures
        a == b,
{
    lemma_literals();
    lemma_stem_parts(a);
    lemma_stem_parts(b);
    let s = file_stem(a);
    let ha = stem_head(a);
    let hb = stem_head(b);
    let da = stem_id(a);
    let db = stem_id(b);
    let ta = stem_tail(a);
    let tb = stem_tail(b);
    if !(a is ShopList) {
        lemma_decimal_shape(resource_id(a));
    }
    if !(b is ShopList) {
        lemma_decimal_shape(resource_id(b));
    }
    assert(s[0] == ha[0] && s[0] == hb[0]);
    // The last character: a digit, or the end of the text after the id.
    assert(s.last() == (hb + db + tb)[s.len() - 1]);
    if ha.len() == hb.len() && ta.len() == tb.len() {
        // The same head and tail: the ids stand at the same place.
        assert forall|i: int| 0 <= i < da.len() implies da[i] == db[i] by {
            assert(db[i] == (hb + db + tb)[hb.len() + i]);
        }
        assert(da =~= db);
        if !(a is ShopList) && !(b is ShopList) {
            lemma_decimal_injective(resource_id(a), resource_id(b));
        }
    } else if ha.len() == hb.len() {
        // Both belong to a shop: the texts after the id differ in length.
        if ta.len() > 0 && tb.len() > 0 {
            assert(s[s.len() - 17] == (hb + db + tb)[s.len() - 17]);
        }
    }
}

/// Two resources with the same body file, or with the same metadata
/// file, are the same resource; and no body file is a metadata file.
pub proof fn lemma_files_apart(a: Resource, b: Resource)
    ensures
        body_file(a) == body_file(b) ==> a == b,
        metadata_file(a) == metadata_file(b) ==> a == b,
        body_file(a) != metadata_file(b),
{
    lemma_literals();
    let sa = file_stem(a);
    let sb = file_stem(b);
    assert(body_file(a).len() == sa.len() + 4 && body_file(b).len() == sb.len() + 4);
    assert(metadata_file(a).len() == sa.len() + 14 && metadata_file(b).len() == sb.len() + 14);
    if body_file(a) == body_file(b) {
        assert forall|i: int| 0 <= i < sa.len() implies sa[i] == sb[i] by {
            assert(sb[i] == body_file(b)[i]);
        }
        assert(sa =~= sb);
        lemma_file_stem_injective(a, b);
    }
    if metadata_file(a) == metadata_file(b) {
        assert forall|i: int| 0 <= i < sa.len() implies sa[i] == sb[i] by {
            assert(sb[i] == metadata_file(b)[i]);
        }
        assert(sa =~= sb);
        lemma_file_stem_injective(a, b);
    }
    if body_file(a) == metadata_file(b) {
        let n = body_file(a).len();
        assert(metadata_file(b)[n - 2] == "_metadata.json"@[12]);
    }
}

proof fn lemma_split_at_last_slash(
    dir_a: Seq<char>,
    file_a: Seq<char>,
    dir_b: Seq<char>,
    file_b: Seq<char>,
)
    requires
        dir_a + seq!['/'] + file_a == dir_b + seq!['/'] + file_b,
        no_slash(file_a),
        no_slash(file_b),
    ensures
        dir_a == dir_b,
        file_a == file_b,
{
    let left = dir_a + seq!['/'] + file_a;
    let right = dir_b + seq!['/'] + file_b;
    assert(right.len() == dir_b.len() + 1 + file_b.len());
    if file_a.len() < file_b.len() {
        assert(right[dir_a.len() as int] == file_b[dir_a.len() - dir_b.len() - 1]);
    }
    if file_b.len() < file_a.len() {
        assert(left[dir_b.len() as int] == file_a[dir_b.len() - dir_a.len() - 1]);
    }
    assert forall|i: int| 0 <= i < file_a.len() implies file_a[i] == file_b[i] by {
        assert(file_b[i] == right[dir_b.len() + 1 + i]);
    }
    assert forall|i: int| 0 <= i < dir_a.len() implies dir_a[i] == dir_b[i] by {
        assert(dir_b[i] == right[i]);
    }
}

/// The identity of a cached record is its key: two keys that differ, in
/// the origin or in the resource, have different body files and different
/// metadata files; and the body file of one key is the metadata file of
/// none.
pub proof fn lemma_key_names_its_files(a: CacheKeyView, b: CacheKeyView)
    ensures
        body_path(a) == body_path(b) ==> a == b,
        metadata_path(a) == metadata_path(b) ==> a == b,
        body_path(a) != metadata_path(b),
{
    reveal_strlit("/");
    assert("/"@ =~= seq!['/']);
    lemma_stem_parts(a.resource);
    lemma_stem_parts(b.resource);
    lemma_files_apart(a.resource, b.resource);
    let da = cache_dir_path(a.api_url);
    let db = cache_dir_path(b.api_url);
    if body_path(a) == body_path(b) {
        lemma_split_at_last_slash(da, body_file(a.resource), db, body_file(b.resource));
        if a.api_url != b.api_url {
            lemma_cache_dir_injective(a.api_url, b.api_url);
        }
    }
    if metadata_path(a) == metadata_path(b) {
        lemma_split_at_last_slash(da, metadata_file(a.resource), db, metadata_file(b.resource));
        if a.api_url != b.api_url {
            lemma_cache_dir_injective(a.api_url, b.api_url);
        }
    }
    if body_path(a) == metadata_path(b) {
        lemma_split_at_last_slash(da, body_file(a.resource), db, metadata_file(b.resource));
    }
}

} // verus!
