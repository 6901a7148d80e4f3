use sendinblue::JsonValue;
use sendinblue::Mailer;
use sendinblue::TransactionalBody;

fn s(x: &str) -> String {
    x.to_string()
}

fn obj(entries: Vec<(&str, JsonValue)>) -> JsonValue {
    let mut out: Vec<(String, JsonValue)> = Vec::new();
    for (k, v) in entries {
        out.push((s(k), v));
    }
    JsonValue::Obj(out)
}

fn get<'a>(params: &'a JsonValue, key: &str) -> Option<&'a JsonValue> {
    match params {
        JsonValue::Obj(entries) => {
            for (k, v) in entries.iter().rev() {
                if k == key {
                    return Some(v);
                }
            }
            None
        }
        _ => None,
    }
}

fn dup(v: &JsonValue) -> JsonValue {
    match v {
        JsonValue::Null => JsonValue::Null,
        JsonValue::Bool(b) => JsonValue::Bool(*b),
        JsonValue::Int(i) => JsonValue::Int(*i),
        JsonValue::Str(x) => JsonValue::Str(x.clone()),
        JsonValue::Arr(items) => JsonValue::Arr(items.iter().map(dup).collect()),
        JsonValue::Obj(entries) => JsonValue::Obj(
            entries.iter().map(|(k, v)| (k.clone(), dup(v))).collect(),
        ),
    }
}

fn required_values() -> JsonValue {
    obj(vec![
        ("brand_name", JsonValue::Str(s("brand_name"))),
        ("banner", JsonValue::Str(s("banner"))),
        ("homepage_link", JsonValue::Str(s("homepage_link"))),
        ("facebook_link", JsonValue::Str(s("facebook_link"))),
        ("instagram_link", JsonValue::Str(s("instagram_link"))),
    ])
}

#[test]
fn test_transactional_body_with_add_values() {
    let sender = Mailer::new(s("sender_name"), s("sender_email"));
    let receiver = Mailer::new(s("receiver_name"), s("receiver_email"));

    let old_payload = TransactionalBody::builder()
        .set_sender(Mailer::new(sender.name.clone(), sender.email.clone()))
        .add_to_mailer(Mailer::new(receiver.name.clone(), receiver.email.clone()))
        .reply_to(Mailer::new(sender.name.clone(), sender.email.clone()))
        .template_id(36)
        .subject(s("TEST SENDINBLUE"))
        .add_params("brand_name", s("brand_name"))
        .add_params("banner", s("banner"))
        .add_params("homepage_link", s("homepage_link"))
        .add_params("facebook_link", s("facebook_link"))
        .add_params("instagram_link", s("instagram_link"))
        .create();

    let new_payload = TransactionalBody::builder()
        .set_sender(Mailer::new(sender.name.clone(), sender.email.clone()))
        .add_to_mailer(receiver)
        .reply_to(sender)
        .template_id(36)
        .subject(s("TEST SENDINBLUE"))
        .add_values(required_values())
        .create();

    assert_eq!(old_payload.params, new_payload.params);
}

#[test]
fn test_transactional_body_with_add_values_and_array() {
    let sender = Mailer::new(s("sender_name"), s("sender_email"));
    let receiver = Mailer::new(s("receiver_name"), s("receiver_email"));

    let order_1 = obj(vec![
        ("order_number", JsonValue::Str(s("YGORDER1"))),
        ("address", JsonValue::Str(s("ADDRESS1"))),
    ]);
    let order_2 = obj(vec![
        ("order_number", JsonValue::Str(s("YGORDER2"))),
        ("address", JsonValue::Str(s("ADDRESS2"))),
    ]);
    let order_list = obj(vec![
        ("list_name", JsonValue::Str(s("TESTORDERLIST"))),
        ("orders", JsonValue::Arr(vec![order_1, order_2])),
    ]);

    let payload = TransactionalBody::builder()
        .set_sender(Mailer::new(sender.name.clone(), sender.email.clone()))
        .add_to_mailer(receiver)
        .reply_to(sender)
        .template_id(36)
        .subject(s("TEST SENDINBLUE"))
        .add_values(required_values())
        .add_values(order_list)
        .create();

    assert_eq!(
        get(&payload.params, "list_name"),
        Some(&JsonValue::Str(s("TESTORDERLIST")))
    );
}

#[test]
fn test_transactional_body_with_add_values_and_object() {
    let sender = Mailer::new(s("sender_name"), s("sender_email"));
    let receiver = Mailer::new(s("receiver_name"), s("receiver_email"));

    let order_1 = obj(vec![
        ("order_number", JsonValue::Str(s("YGORDER1"))),
        ("address", JsonValue::Str(s("ADDRESS1"))),
    ]);
    let order = obj(vec![("order", order_1), ("count", JsonValue::Int(2))]);

    let payload = TransactionalBody::builder()
        .set_sender(Mailer::new(sender.name.clone(), sender.email.clone()))
        .add_to_mailer(receiver)
        .reply_to(sender)
        .template_id(36)
        .subject(s("TEST SENDINBLUE"))
        .add_values(required_values())
        .add_values(order)
        .create();

    assert_eq!(get(&payload.params, "count"), Some(&JsonValue::Int(2)));
}

#[test]
fn scenario_merge_equals_individual_inserts() {
    let body_merged = TransactionalBody::builder()
        .set_sender(Mailer::new(s("sender_name"), s("sender_email")))
        .add_to_mailer(Mailer::new(s("receiver_name"), s("receiver_email")))
        .template_id(36)
        .subject(s("TEST SENDINBLUE"))
        .add_values(obj(vec![
            ("brand_name", JsonValue::Str(s("brand_name"))),
            ("banner", JsonValue::Str(s("banner"))),
        ]))
        .create();

    let body_individual = TransactionalBody::builder()
        .add_params("brand_name", s("brand_name"))
        .add_params("banner", s("banner"))
        .create();

    let expected = obj(vec![
        ("brand_name", JsonValue::Str(s("brand_name"))),
        ("banner", JsonValue::Str(s("banner"))),
    ]);
    assert_eq!(body_merged.params, expected);
    assert_eq!(body_individual.params, expected);
    assert_eq!(body_merged.template_id, 36);
    assert_eq!(body_merged.subject, s("TEST SENDINBLUE"));
    assert_eq!(body_merged.sender.name, s("sender_name"));
    assert_eq!(body_merged.sender.email, s("sender_email"));
    assert_eq!(body_merged.to.len(), 1);
    assert_eq!(body_merged.to[0].name, s("receiver_name"));
}

#[test]
fn merge_omits_null_valued_keys() {
    let body = TransactionalBody::builder()
        .add_values(obj(vec![
            ("kept", JsonValue::Str(s("value"))),
            ("dropped", JsonValue::Null),
        ]))
        .create();

    assert_eq!(get(&body.params, "kept"), Some(&JsonValue::Str(s("value"))));
    assert_eq!(get(&body.params, "dropped"), None);
    assert_eq!(
        body.params,
        obj(vec![("kept", JsonValue::Str(s("value")))])
    );
}

#[test]
fn null_does_not_erase_an_existing_key() {
    let body = TransactionalBody::builder()
        .add_params("kept", s("before"))
        .add_values(obj(vec![("kept", JsonValue::Null)]))
        .create();

    assert_eq!(get(&body.params, "kept"), Some(&JsonValue::Str(s("before"))));
}

#[test]
fn sequential_merges_union_keys_second_wins() {
    let body = TransactionalBody::builder()
        .add_values(obj(vec![
            ("shared", JsonValue::Str(s("first"))),
            ("only_first", JsonValue::Int(1)),
        ]))
        .add_values(obj(vec![
            ("shared", JsonValue::Str(s("second"))),
            ("only_second", JsonValue::Int(2)),
        ]))
        .create();

    assert_eq!(get(&body.params, "shared"), Some(&JsonValue::Str(s("second"))));
    assert_eq!(get(&body.params, "only_first"), Some(&JsonValue::Int(1)));
    assert_eq!(get(&body.params, "only_second"), Some(&JsonValue::Int(2)));
}

#[test]
fn merge_preserves_nested_structure() {
    let orders = JsonValue::Arr(vec![
        obj(vec![
            ("order_number", JsonValue::Str(s("YGORDER1"))),
            ("address", JsonValue::Str(s("ADDRESS1"))),
        ]),
        obj(vec![
            ("order_number", JsonValue::Str(s("YGORDER2"))),
            ("address", JsonValue::Str(s("ADDRESS2"))),
        ]),
    ]);
    let nested = obj(vec![("inner", obj(vec![("flag", JsonValue::Bool(true))]))]);

    let body = TransactionalBody::builder()
        .add_values(obj(vec![
            ("orders", dup(&orders)),
            ("nested", dup(&nested)),
        ]))
        .create();

    assert_eq!(get(&body.params, "orders"), Some(&orders));
    assert_eq!(get(&body.params, "nested"), Some(&nested));
}

#[test]
fn merging_a_non_object_changes_nothing() {
    let body = TransactionalBody::builder()
        .add_params("key", s("value"))
        .add_values(JsonValue::Str(s("not an object")))
        .create();

    assert_eq!(body.params, obj(vec![("key", JsonValue::Str(s("value")))]));

    let untouched = TransactionalBody::builder()
        .add_values(JsonValue::Int(7))
        .create();
    assert_eq!(untouched.params, JsonValue::Null);
}

#[test]
fn merging_an_empty_object_keeps_params_absent() {
    let body = TransactionalBody::builder().add_values(obj(vec![])).create();
    assert_eq!(body.params, JsonValue::Null);
}

#[test]
fn add_params_overwrites_prior_value() {
    let body = TransactionalBody::builder()
        .add_params("key", s("old"))
        .add_params("key", s("new"))
        .create();
    assert_eq!(body.params, obj(vec![("key", JsonValue::Str(s("new")))]));
}

#[test]
fn add_params_array_inserts_an_array() {
    let body = TransactionalBody::builder()
        .add_params_array(
            "items",
            vec![JsonValue::Str(s("a")), JsonValue::Str(s("b"))],
        )
        .create();
    assert_eq!(
        get(&body.params, "items"),
        Some(&JsonValue::Arr(vec![
            JsonValue::Str(s("a")),
            JsonValue::Str(s("b")),
        ]))
    );
}

#[test]
fn recipients_accumulate_in_call_order() {
    let body = TransactionalBody::builder()
        .add_to_mailer(Mailer::new(s("a"), s("a@example.com")))
        .add_to_mailer(Mailer::new(s("b"), s("b@example.com")))
        .create();
    assert_eq!(body.to.len(), 2);
    assert_eq!(body.to[0].name, s("a"));
    assert_eq!(body.to[1].name, s("b"));
}
