use bark_relay::client::{decimal_text, BarkNotificationLevel, BarkPostBody};

fn empty_body() -> BarkPostBody {
    BarkPostBody {
        title: None,
        body: None,
        level: None,
        badge: None,
        auto_copy: None,
        copy: None,
        sound: None,
        icon: None,
    }
}

#[test]
fn empty_payload_encodes_as_empty_object() {
    assert_eq!(empty_body().encode(), "{}");
}

#[test]
fn full_payload_encodes_every_field_in_order() {
    let b = BarkPostBody {
        title: Some("t".to_string()),
        body: Some("a\nb".to_string()),
        level: Some(BarkNotificationLevel::TimeSensitive),
        badge: Some(3),
        auto_copy: Some(true),
        copy: Some("https://x/1".to_string()),
        sound: Some("minuet".to_string()),
        icon: Some("i".to_string()),
    };
    assert_eq!(
        b.encode(),
        "{\"title\":\"t\",\"body\":\"a\\nb\",\"level\":\"timeSensitive\",\"badge\":3,\"autoCopy\":true,\"copy\":\"https://x/1\",\"sound\":\"minuet\",\"icon\":\"i\"}"
    );
}

#[test]
fn absent_fields_are_omitted_after_decoding() {
    let mut b = empty_body();
    b.body = Some("only body".to_string());
    b.level = Some(BarkNotificationLevel::Passive);
    b.auto_copy = Some(false);
    let text = b.encode();
    let v: serde_json::Value = serde_json::from_str(&text).unwrap();
    let obj = v.as_object().unwrap();
    assert_eq!(obj.len(), 3);
    assert_eq!(obj.get("body").and_then(|x| x.as_str()), Some("only body"));
    assert_eq!(obj.get("level").and_then(|x| x.as_str()), Some("passive"));
    assert_eq!(obj.get("autoCopy").and_then(|x| x.as_bool()), Some(false));
    for key in ["title", "badge", "copy", "sound", "icon"] {
        assert!(!obj.contains_key(key));
    }
}

#[test]
fn strings_are_escaped() {
    let mut b = empty_body();
    b.title = Some("say \"hi\"\\".to_string());
    b.level = Some(BarkNotificationLevel::Active);
    assert_eq!(b.encode(), "{\"title\":\"say \\\"hi\\\"\\\\\",\"level\":\"active\"}");
    let v: serde_json::Value = serde_json::from_str(&b.encode()).unwrap();
    assert_eq!(v["title"].as_str(), Some("say \"hi\"\\"));
}

#[test]
fn badge_decimal_text() {
    assert_eq!(decimal_text(0), "0");
    assert_eq!(decimal_text(7), "7");
    assert_eq!(decimal_text(1024), "1024");
    assert_eq!(decimal_text(-42), "-42");
    assert_eq!(decimal_text(i32::MAX), "2147483647");
    assert_eq!(decimal_text(i32::MIN), "-2147483648");
    let mut b = empty_body();
    b.badge = Some(-5);
    assert_eq!(b.encode(), "{\"badge\":-5}");
}

#[test]
fn duplicate_is_an_equal_independent_copy() {
    let mut b = empty_body();
    b.title = Some("t".to_string());
    let mut c = b.duplicate();
    assert_eq!(c.encode(), b.encode());
    c.title = Some("u".to_string());
    assert_eq!(b.title.as_deref(), Some("t"));
}
