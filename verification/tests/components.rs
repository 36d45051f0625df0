//! Tests of the individual pipeline pieces: Discovery's filtering and alias
//! choice, sanitization, and the create-index payload.

use cluster_mover::discovery::discover;
use cluster_mover::schema::schema_payload;
use cluster_mover::Json;

fn obj(fields: Vec<(&str, Json)>) -> Json {
    Json::Obj(fields.into_iter().map(|(k, v)| (k.to_string(), v)).collect())
}

fn entry(aliases: Vec<&str>) -> Json {
    obj(vec![("aliases", obj(aliases.into_iter().map(|a| (a, obj(vec![]))).collect()))])
}

#[test]
fn discovery_excludes_internal_indices() {
    let listing = obj(vec![(".kibana", entry(vec![])), ("products", entry(vec!["products_v1"]))]);
    let (indices, aliases) = discover(listing).unwrap();
    assert_eq!(indices, vec!["products".to_string()]);
    assert_eq!(aliases, vec![("products".to_string(), "products_v1".to_string())]);
}

#[test]
fn internal_index_content_never_matters() {
    // A malformed internal entry is skipped before any shape check.
    let listing = obj(vec![
        (".security", Json::Str("garbage".to_string())),
        ("ok", entry(vec![])),
    ]);
    let (indices, aliases) = discover(listing).unwrap();
    assert_eq!(indices, vec!["ok".to_string()]);
    assert!(aliases.is_empty());
}

#[test]
fn zero_alias_index_has_no_alias_map_entry() {
    let listing = obj(vec![("a", entry(vec![])), ("b", entry(vec!["b1"]))]);
    let (indices, aliases) = discover(listing).unwrap();
    assert_eq!(indices, vec!["a".to_string(), "b".to_string()]);
    assert_eq!(aliases, vec![("b".to_string(), "b1".to_string())]);
}

#[test]
fn first_of_several_aliases_is_retained() {
    let listing = obj(vec![("idx", entry(vec!["one", "two", "three"]))]);
    let (_, aliases) = discover(listing).unwrap();
    assert_eq!(aliases, vec![("idx".to_string(), "one".to_string())]);
}

#[test]
fn non_object_listing_is_rejected() {
    assert!(discover(Json::Arr(vec![])).is_none());
    assert!(discover(Json::Null).is_none());
}

#[test]
fn missing_aliases_member_is_rejected() {
    let listing = obj(vec![("idx", obj(vec![("something_else", obj(vec![]))]))]);
    assert!(discover(listing).is_none());
}

fn schema_doc(index: &str, settings_index: Vec<(&str, Json)>) -> Json {
    obj(vec![(
        index,
        obj(vec![
            ("mappings", obj(vec![("dynamic", Json::Bool(true))])),
            ("settings", obj(vec![("index", obj(settings_index))])),
        ]),
    )])
}

#[test]
fn sanitization_removes_exactly_the_identity_fields() {
    let resp = schema_doc(
        "idx",
        vec![
            ("creation_date", Json::Str("1".to_string())),
            ("provided_name", Json::Str("idx".to_string())),
            ("uuid", Json::Str("abc".to_string())),
            ("version", obj(vec![("created", Json::Str("7".to_string()))])),
            ("number_of_shards", Json::Str("3".to_string())),
            ("analysis", obj(vec![("analyzer", Json::Str("std".to_string()))])),
        ],
    );
    let payload = schema_payload(resp, &"idx".to_string()).unwrap();
    let expected = obj(vec![
        ("mappings", obj(vec![("dynamic", Json::Bool(true))])),
        (
            "settings",
            obj(vec![(
                "index",
                obj(vec![
                    ("number_of_shards", Json::Str("3".to_string())),
                    ("analysis", obj(vec![("analyzer", Json::Str("std".to_string()))])),
                ]),
            )]),
        ),
    ]);
    assert_eq!(payload, expected);
}

#[test]
fn sanitization_example_from_minimal_settings() {
    let resp = schema_doc(
        "i",
        vec![
            ("creation_date", Json::Str("1".to_string())),
            ("uuid", Json::Str("abc".to_string())),
            ("number_of_shards", Json::Str("3".to_string())),
        ],
    );
    let payload = schema_payload(resp, &"i".to_string()).unwrap();
    let expected_settings = obj(vec![(
        "index",
        obj(vec![("number_of_shards", Json::Str("3".to_string()))]),
    )]);
    match payload {
        Json::Obj(fields) => {
            assert_eq!(fields[1].0, "settings");
            assert_eq!(fields[1].1, expected_settings);
        },
        other => panic!("expected an object payload, got {:?}", other),
    }
}

#[test]
fn payload_has_exactly_two_top_level_members() {
    // The source response carries extra members at every level above the
    // settings; none of them reach the payload.
    let resp = obj(vec![
        ("unrelated", Json::Str("noise".to_string())),
        (
            "idx",
            obj(vec![
                ("mappings", obj(vec![])),
                ("settings", obj(vec![("index", obj(vec![])), ("extra", Json::Null)])),
                ("stats", Json::Num("42".to_string())),
            ]),
        ),
    ]);
    let payload = schema_payload(resp, &"idx".to_string()).unwrap();
    match payload {
        Json::Obj(fields) => {
            assert_eq!(fields.len(), 2);
            assert_eq!(fields[0].0, "mappings");
            assert_eq!(fields[1].0, "settings");
        },
        other => panic!("expected an object payload, got {:?}", other),
    }
}

fn tricky_mappings() -> Json {
    obj(vec![(
        "properties",
        obj(vec![
            ("creation_date", Json::Str("kept".to_string())),
            ("uuid", Json::Str("kept too".to_string())),
        ]),
    )])
}

#[test]
fn mappings_pass_through_untouched() {
    let mappings = tricky_mappings();
    let resp = obj(vec![(
        "idx",
        obj(vec![
            ("mappings", tricky_mappings()),
            ("settings", obj(vec![("index", obj(vec![]))])),
        ]),
    )]);
    let payload = schema_payload(resp, &"idx".to_string()).unwrap();
    match payload {
        Json::Obj(fields) => assert_eq!(fields[0].1, mappings),
        other => panic!("expected an object payload, got {:?}", other),
    }
}

#[test]
fn schema_without_expected_shape_is_rejected() {
    // Missing index member.
    assert!(schema_payload(obj(vec![]), &"idx".to_string()).is_none());
    // Missing mappings.
    let no_mappings = obj(vec![(
        "idx",
        obj(vec![("settings", obj(vec![("index", obj(vec![]))]))]),
    )]);
    assert!(schema_payload(no_mappings, &"idx".to_string()).is_none());
    // Missing settings.
    let no_settings = obj(vec![("idx", obj(vec![("mappings", obj(vec![]))]))]);
    assert!(schema_payload(no_settings, &"idx".to_string()).is_none());
    // Settings without an `index` object.
    let bad_settings = schema_doc("idx", vec![]);
    assert!(schema_payload(bad_settings, &"idx".to_string()).is_some());
    let no_index = obj(vec![(
        "idx",
        obj(vec![("mappings", obj(vec![])), ("settings", obj(vec![]))]),
    )]);
    assert!(schema_payload(no_index, &"idx".to_string()).is_none());
}
