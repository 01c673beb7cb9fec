use contact_form::{
    add_item, add_item_at, format_timestamp, on_request, on_request_at, on_written,
    put_item_request, stored_record, to_json, Decoded, HttpReply, IngestError, Item, Step,
    UtcInstant,
};

fn item(name: &str, email: &str, message: &str) -> Item {
    Item { name: name.to_string(), email: email.to_string(), message: message.to_string() }
}

fn instant(year: i32, micro: u32) -> UtcInstant {
    UtcInstant {
        year,
        month: 3,
        day: 5,
        hour: 7,
        minute: 8,
        second: 9,
        nanosecond: micro * 1000 + 789,
    }
}

fn pairs(items: &[(&str, &str)]) -> Vec<(String, String)> {
    items.iter().map(|(k, v)| (k.to_string(), v.to_string())).collect()
}

#[test]
fn timestamp_is_fixed_width_with_microseconds() {
    let t = instant(2024, 123456);
    assert_eq!(format_timestamp(&t), "2024-03-05T07:08:09.123456Z");
    let early = UtcInstant { year: 987, month: 1, day: 2, hour: 0, minute: 0, second: 0, nanosecond: 5000 };
    assert_eq!(format_timestamp(&early), "0987-01-02T00:00:00.000005Z");
}

#[test]
fn stored_record_key_is_email_hash_timestamp() {
    let s = item("A", "a@b.com", "hi");
    let r = stored_record(&s, &instant(2024, 42));
    assert_eq!(r.composite_key, "a@b.com#2024-03-05T07:08:09.000042Z");
    assert_eq!(r.name, "A");
    assert_eq!(r.email, "a@b.com");
    assert_eq!(r.message, "hi");
}

#[test]
fn put_request_carries_four_string_attributes() {
    let s = item("A", "a@b.com", "hi");
    let p = put_item_request("zola_website_db", stored_record(&s, &instant(2024, 1)));
    assert_eq!(p.table, "zola_website_db");
    assert_eq!(
        p.attributes,
        pairs(&[
            ("email_timestamp", "a@b.com#2024-03-05T07:08:09.000001Z"),
            ("Name", "A"),
            ("Email", "a@b.com"),
            ("Content", "hi"),
        ])
    );
}

#[test]
fn add_item_at_refuses_five_digit_year() {
    let s = item("A", "a@b.com", "hi");
    assert_eq!(add_item_at(&s, "t", &instant(10000, 0)), None);
    assert!(add_item_at(&s, "t", &instant(9999, 0)).is_some());
}

#[test]
fn add_item_stamps_current_time() {
    let s = item("A", "a@b.com", "hi");
    let p = add_item(&s, "zola_website_db").unwrap();
    assert_eq!(p.table, "zola_website_db");
    let key = &p.attributes[0].1;
    assert!(key.starts_with("a@b.com#"));
    let stamp = &key["a@b.com#".len()..];
    assert_eq!(stamp.len(), 27);
    assert!(stamp.ends_with('Z'));
    assert_eq!(&stamp[10..11], "T");
    assert_eq!(p.attributes[1], ("Name".to_string(), "A".to_string()));
}

#[test]
fn distinct_instants_give_distinct_keys() {
    let s = item("A", "a@b.com", "hi");
    let a = add_item_at(&s, "t", &instant(2024, 1)).unwrap();
    let b = add_item_at(&s, "t", &instant(2024, 2)).unwrap();
    assert_ne!(a.attributes[0].1, b.attributes[0].1);
    assert_eq!(a.attributes[1..], b.attributes[1..]);
}

#[test]
fn serializes_submission_as_compact_json() {
    let s = item("A", "a@b.com", "hi");
    assert_eq!(to_json(&s), "{\"name\":\"A\",\"email\":\"a@b.com\",\"message\":\"hi\"}");
}

#[test]
fn serialization_escapes_quotes_and_controls() {
    let s = item("say \"hi\"", "back\\slash", "line\nbreak\ttab\u{1}");
    assert_eq!(
        to_json(&s),
        "{\"name\":\"say \\\"hi\\\"\",\"email\":\"back\\\\slash\",\"message\":\"line\\nbreak\\ttab\\u0001\"}"
    );
}

#[test]
fn round_trip_of_escaped_submission_through_serde_json() {
    let s = item("Sponge \"Bob\"", "pineapple@sea.com", "Will this\nmessage deliver?\u{1f}");
    let text = to_json(&s);
    let v: serde_json::Value = serde_json::from_str(&text).unwrap();
    assert_eq!(v["name"].as_str().unwrap(), s.name);
    assert_eq!(v["email"].as_str().unwrap(), s.email);
    assert_eq!(v["message"].as_str().unwrap(), s.message);
}

#[test]
fn valid_submission_is_written_then_echoed() {
    let s = item("A", "a@b.com", "hi");
    let step = on_request(Decoded::Submission(s.clone()), "zola_website_db");
    let (put, pending) = match step {
        Step::Write(p, i) => (p, i),
        other => panic!("expected a write, got {:?}", other),
    };
    assert_eq!(put.table, "zola_website_db");
    assert_eq!(pending, s);
    let reply = on_written(Ok(()), pending).unwrap();
    assert_eq!(
        reply,
        HttpReply {
            status: 200,
            content_type: "text/html".to_string(),
            body: "{\"name\":\"A\",\"email\":\"a@b.com\",\"message\":\"hi\"}".to_string(),
        }
    );
}

#[test]
fn missing_fields_give_bad_request() {
    let diagnostic = "missing field `email` at line 1 column 12";
    let step = on_request(Decoded::Malformed(diagnostic.to_string()), "zola_website_db");
    match step {
        Step::Respond(reply) => {
            assert_eq!(reply.status, 400);
            assert_eq!(reply.content_type, "application/json");
            assert!(!reply.body.is_empty());
            assert!(reply.body.contains("email"));
        }
        other => panic!("expected a reply, got {:?}", other),
    }
}

#[test]
fn backend_failure_fails_invocation() {
    let s = item("A", "a@b.com", "hi");
    let r = on_written(Err("AccessDeniedException".to_string()), s);
    assert_eq!(r, Err(IngestError::Write("AccessDeniedException".to_string())));
}

#[test]
fn body_that_is_not_text_fails_invocation() {
    assert_eq!(on_request(Decoded::NotText, "t"), Step::Fail(IngestError::Encoding));
}

#[test]
fn write_at_five_digit_year_fails_invocation() {
    let s = item("A", "a@b.com", "hi");
    assert_eq!(
        on_request_at(Decoded::Submission(s), "t", &instant(10000, 0)),
        Step::Fail(IngestError::ClockOutOfRange)
    );
}
