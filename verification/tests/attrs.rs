use htmx_attrs::HtmxAttrs;
use htmx_attrs::HtmxError;
use htmx_attrs::HtmxTrigger;

#[test]
fn hx_get() {
    let demo: String = HtmxAttrs::get("/htmxdemo".to_string())
        .target("#repo".to_string())
        .triggers(vec![
            HtmxTrigger::new("change".to_string()),
            HtmxTrigger::new("load".to_string()),
        ])
        .serialize()
        .unwrap();
    let correct_str = format!("hx-get=/htmxdemo hx-target=#repo hx-trigger=change,load");
    assert_eq!(demo, correct_str)
}

#[test]
fn trigger_without_modifier() {
    let s = HtmxTrigger::new("change".to_string()).serialize();
    assert_eq!(s, "change");
}

#[test]
fn trigger_with_modifier() {
    let s = HtmxTrigger::new("change".to_string())
        .modifier("once".to_string())
        .serialize();
    assert_eq!(s, "change once");
}

#[test]
fn triggers_join_with_commas_in_order() {
    let s = HtmxAttrs::get("/x".to_string())
        .triggers(vec![
            HtmxTrigger::new("change".to_string()),
            HtmxTrigger::new("load".to_string()),
        ])
        .serialize()
        .unwrap();
    assert_eq!(s, "hx-get=/x hx-trigger=change,load");
}

#[test]
fn trigger_list_keeps_inner_modifier_space() {
    let s = HtmxAttrs::get("/x".to_string())
        .trigger(HtmxTrigger::new("click".to_string()).modifier("once".to_string()))
        .serialize()
        .unwrap();
    assert_eq!(s, "hx-get=/x hx-trigger=click once");
}

#[test]
fn empty_trigger_list_keeps_prefix() {
    let s = HtmxAttrs::get("/x".to_string())
        .triggers(Vec::new())
        .serialize()
        .unwrap();
    assert_eq!(s, "hx-get=/x hx-trigger=");
}

#[test]
fn two_targets_stay_separate_in_call_order() {
    let s = HtmxAttrs::get("/x".to_string())
        .target("#a".to_string())
        .target("#b".to_string())
        .serialize()
        .unwrap();
    assert_eq!(s, "hx-get=/x hx-target=#a hx-target=#b");
}

#[test]
fn misc_is_inserted_verbatim() {
    let s = HtmxAttrs::get("/x".to_string())
        .misc("data-foo=bar".to_string())
        .serialize()
        .unwrap();
    assert_eq!(s, "hx-get=/x data-foo=bar");
}

#[test]
fn extension_token() {
    let s = HtmxAttrs::get("/x".to_string())
        .extension("json-enc".to_string())
        .serialize()
        .unwrap();
    assert_eq!(s, "hx-get=/x hx-ext=json-enc");
}

#[test]
fn post_put_delete_prefixes() {
    let p = HtmxAttrs::post("/p".to_string()).serialize().unwrap();
    assert_eq!(p, "hx-post=/p");
    let u = HtmxAttrs::put("/u".to_string()).serialize().unwrap();
    assert_eq!(u, "hx-put=/u");
    let d = HtmxAttrs::delete("/d".to_string()).serialize().unwrap();
    assert_eq!(d, "hx-delete=/d");
}

#[test]
fn invalid_uri_fails_every_verb() {
    let e = HtmxAttrs::get("/bad uri".to_string()).serialize();
    assert!(matches!(e, Err(HtmxError::InvalidUri(_))));
    let e = HtmxAttrs::post("/bad uri".to_string()).serialize();
    assert!(matches!(e, Err(HtmxError::InvalidUri(_))));
    let e = HtmxAttrs::put("/bad uri".to_string()).serialize();
    assert!(matches!(e, Err(HtmxError::InvalidUri(_))));
    let e = HtmxAttrs::delete("/bad uri".to_string()).serialize();
    assert!(matches!(e, Err(HtmxError::InvalidUri(_))));
}

#[test]
fn invalid_uri_fails_whatever_follows() {
    let e = HtmxAttrs::get("ht tp://nope".to_string())
        .target("#repo".to_string())
        .misc("data-a=b".to_string())
        .triggers(vec![HtmxTrigger::new("load".to_string())])
        .serialize();
    assert!(matches!(e, Err(HtmxError::InvalidUri(_))));
}

#[test]
fn empty_collection_is_refused() {
    let e = HtmxAttrs::default().serialize();
    assert!(matches!(e, Err(HtmxError::EmptyAttrs)));
}

#[test]
fn trailing_space_is_trimmed() {
    let s = HtmxAttrs::get("/x".to_string())
        .misc("".to_string())
        .serialize()
        .unwrap();
    assert_eq!(s, "hx-get=/x");
}

#[test]
fn serializing_equal_collections_twice_matches() {
    let build = || {
        HtmxAttrs::get("/same".to_string())
            .target("#t".to_string())
            .triggers(vec![
                HtmxTrigger::new("change".to_string()),
                HtmxTrigger::new("load".to_string()),
            ])
            .misc("data-k=v".to_string())
    };
    let first = build().serialize().unwrap();
    let second = build().serialize().unwrap();
    assert_eq!(first, second);
}
