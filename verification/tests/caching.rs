use bigneon::caching::{
    digest, etag_hash, payload_etag, to_hex, try_digest, CacheDirective, CacheHeaders, CacheInfo, EntityTag,
    IfNoneMatch, PayloadETag, ToETag,
};
use bigneon::paging::{Paging, Payload};

#[test]
fn sha1_digest() {
    let sha = digest("testme");
    assert_eq!(sha, "3abef1a14ccecd20d6ce892cbe042ae6d74946c8");
}

#[test]
fn etag_hash_is_the_digest() {
    assert_eq!(etag_hash("testme"), "3abef1a14ccecd20d6ce892cbe042ae6d74946c8");
    assert_eq!(etag_hash(""), "da39a3ee5e6b4b0d3255bfef95601890afd80709");
}

#[test]
fn hex_has_two_digits_per_byte() {
    assert_eq!(to_hex(&vec![0x00, 0x0f, 0xa0, 0xff]), "000fa0ff");
    assert_eq!(to_hex(&vec![]), "");
}


struct Versioned {
    updated_at: u32,
}

impl ToETag for Versioned {
    fn to_etag(&self) -> EntityTag {
        EntityTag::weak(self.updated_at.to_string())
    }
}

#[test]
fn private_responses_say_so() {
    let private = CacheHeaders::from(CacheInfo { max_age: 60, public: false }, None);
    assert_eq!(private.cache_control(), &vec![CacheDirective::MaxAge(60), CacheDirective::Private]);
    assert!(private.etag().is_none());
    let public = CacheHeaders::from(CacheInfo { max_age: 5, public: true }, Some(EntityTag::strong("v1".to_string())));
    assert_eq!(public.cache_control(), &vec![CacheDirective::MaxAge(5)]);
    assert_eq!(public.etag().as_ref().unwrap().tag, "v1");
    assert!(!public.etag().as_ref().unwrap().weak);
    assert_eq!(public.inner(), vec![CacheDirective::MaxAge(5)]);
}

#[test]
fn struct_test() {
    let t = Versioned { updated_at: 123 };
    let etag = t.to_etag();
    assert_eq!(etag.tag, "123");
    assert_eq!(etag.header_value(), "W/\"123\"");
    assert_eq!(EntityTag::strong("123".to_string()).header_value(), "\"123\"");
}

#[test]
fn the_tag_of_a_list_is_the_digest_of_the_digests_of_its_tags() {
    let tags = vec![EntityTag::weak("1".to_string()), EntityTag::strong("two".to_string())];
    let expected = digest(&format!("{}{}", digest("W/\"1\""), digest("\"two\"")));
    let etag = payload_etag(&tags).unwrap();
    assert!(etag.weak);
    assert_eq!(etag.tag, expected);
    assert_eq!(payload_etag(&Vec::new()).unwrap().tag, "da39a3ee5e6b4b0d3255bfef95601890afd80709");
    let one = payload_etag(&vec![EntityTag::weak("1".to_string())]).unwrap();
    assert_ne!(one.tag, etag.tag);
    assert_eq!(one.tag, digest(&digest("W/\"1\"")));
}

#[test]
fn headers_of_a_payload_carry_its_tag() {
    let list = || Payload::new(vec![Versioned { updated_at: 1 }, Versioned { updated_at: 2 }], Paging::new(0, 10));
    let expected = digest(&format!("{}{}", digest("W/\"1\""), digest("W/\"2\"")));
    assert_eq!(PayloadETag::wrap(list()).to_etag().unwrap().tag, expected);
    let headers = CacheHeaders::from_payload(list(), CacheInfo { max_age: 1, public: true });
    let tag = headers.etag().as_ref().unwrap();
    assert_eq!(tag.tag, expected);
    assert!(tag.weak);
    assert_eq!(headers.cache_control(), &vec![CacheDirective::MaxAge(1)]);
}

#[test]
fn try_digest_is_the_digest_of_what_fits() {
    assert_eq!(try_digest("testme"), Some("3abef1a14ccecd20d6ce892cbe042ae6d74946c8".to_string()));
    assert_eq!(try_digest("héllo"), Some(digest("héllo")));
}

#[test]
fn a_resource_is_stale_unless_the_client_holds_its_tag() {
    let headers = CacheHeaders::from(CacheInfo { max_age: 60, public: true }, Some(EntityTag::weak("abc".to_string())));
    assert!(headers.is_stale(&None));
    assert!(headers.is_stale(&Some(IfNoneMatch::Any)));
    assert!(headers.is_stale(&Some(IfNoneMatch::Items(Vec::new()))));
    assert!(headers.is_stale(&Some(IfNoneMatch::Items(vec![EntityTag::weak("xyz".to_string())]))));
    let held = IfNoneMatch::Items(vec![EntityTag::weak("xyz".to_string()), EntityTag::strong("abc".to_string())]);
    assert!(!headers.is_stale(&Some(held)));
    let untagged = CacheHeaders::from(CacheInfo { max_age: 60, public: true }, None);
    assert!(untagged.is_stale(&Some(IfNoneMatch::Items(vec![EntityTag::weak("abc".to_string())]))));
}

#[test]
fn tags_compare_weakly_and_strongly() {
    let weak = EntityTag::weak("a".to_string());
    let strong = EntityTag::strong("a".to_string());
    let other = EntityTag::strong("b".to_string());
    assert!(weak.weak_eq(&strong));
    assert!(!weak.strong_eq(&strong));
    assert!(strong.strong_eq(&EntityTag::strong("a".to_string())));
    assert!(!strong.weak_eq(&other));
    assert!(!strong.strong_eq(&other));
}

#[test]
fn responses_are_found_where_the_client_is_up_to_date() {
    let tag = || Some(EntityTag::weak("abc".to_string()));
    let info = CacheInfo { max_age: 30, public: false };
    let fresh = CacheHeaders::from(info, tag())
        .into_response(&Some(IfNoneMatch::Items(vec![EntityTag::weak("abc".to_string())])));
    assert_eq!(fresh.status, 302);
    assert_eq!(fresh.cache_control, vec![CacheDirective::MaxAge(30), CacheDirective::Private]);
    assert_eq!(fresh.etag.unwrap().tag, "abc");
    let stale = CacheHeaders::from(info, tag()).into_response(&None);
    assert_eq!(stale.status, 200);
    let ok = CacheHeaders::from(info, tag()).into_ok_response();
    assert_eq!(ok.status, 200);
    assert_eq!(ok.etag.unwrap().tag, "abc");
    let mut builder = CacheHeaders::from(info, None).into_ok_response();
    builder.status = 404;
    CacheHeaders::from(CacheInfo { max_age: 9, public: true }, tag()).set_headers(&mut builder);
    assert_eq!(builder.status, 404);
    assert_eq!(builder.cache_control, vec![CacheDirective::MaxAge(9)]);
    assert_eq!(builder.etag.unwrap().tag, "abc");
}
