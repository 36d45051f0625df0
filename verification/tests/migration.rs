//! End-to-end runs of the migration machine against fixed event transcripts.

use cluster_mover::{move_cluster, Event, Json, Method, MigrationError, Options, RunStatus};

fn opts() -> Options {
    Options { from_cluster: "http://src:9200".to_string(), to_cluster: "http://dst:9400".to_string() }
}

fn obj(fields: Vec<(&str, Json)>) -> Json {
    Json::Obj(fields.into_iter().map(|(k, v)| (k.to_string(), v)).collect())
}

fn ok_response(json: Json) -> Event {
    Event::Response { status: 200, body: String::new(), json: Some(json) }
}

fn ok_empty() -> Event {
    Event::Response { status: 200, body: String::new(), json: Some(obj(vec![])) }
}

/// An index entry of the alias listing with the given alias names.
fn entry(aliases: Vec<&str>) -> Json {
    obj(vec![("aliases", obj(aliases.into_iter().map(|a| (a, obj(vec![]))).collect()))])
}

fn orders_mappings() -> Json {
    obj(vec![(
        "properties",
        obj(vec![("id", obj(vec![("type", Json::Str("keyword".to_string()))]))]),
    )])
}

#[test]
fn end_to_end_scenario() {
    // Source: an aliased index `orders` and a system index `.security`.
    let listing = obj(vec![
        ("orders", entry(vec!["orders_current"])),
        (".security", entry(vec![])),
    ]);
    let schema = obj(vec![(
        "orders",
        obj(vec![
            ("mappings", orders_mappings()),
            (
                "settings",
                obj(vec![(
                    "index",
                    obj(vec![
                        ("creation_date", Json::Str("1".to_string())),
                        ("uuid", Json::Str("abc".to_string())),
                        ("number_of_shards", Json::Str("3".to_string())),
                    ]),
                )]),
            ),
        ]),
    )]);
    let events = vec![
        ok_response(listing),
        ok_response(schema),
        ok_empty(), // answer to the create-index PUT
        ok_empty(), // answer to the reindex POST
        ok_empty(), // answer to the alias PUT
    ];
    let run = move_cluster(opts(), events);

    assert_eq!(run.status, RunStatus::Completed);
    assert_eq!(run.requests.len(), 5);

    assert_eq!(run.requests[0].method, Method::Get);
    assert_eq!(run.requests[0].url, "http://src:9200/_alias");
    assert_eq!(run.requests[0].body, None);

    assert_eq!(run.requests[1].method, Method::Get);
    assert_eq!(run.requests[1].url, "http://src:9200/orders");

    assert_eq!(run.requests[2].method, Method::Put);
    assert_eq!(run.requests[2].url, "http://dst:9400/orders");
    let expected_payload = obj(vec![
        ("mappings", orders_mappings()),
        (
            "settings",
            obj(vec![("index", obj(vec![("number_of_shards", Json::Str("3".to_string()))]))]),
        ),
    ]);
    assert_eq!(run.requests[2].body, Some(expected_payload));

    assert_eq!(run.requests[3].method, Method::Post);
    assert_eq!(run.requests[3].url, "http://dst:9400/_reindex");
    let expected_body = obj(vec![
        (
            "source",
            obj(vec![
                ("remote", obj(vec![("host", Json::Str("http://src:9200".to_string()))])),
                ("index", Json::Str("orders".to_string())),
            ]),
        ),
        ("dest", obj(vec![("index", Json::Str("orders".to_string()))])),
    ]);
    assert_eq!(run.requests[3].body, Some(expected_body));

    assert_eq!(run.requests[4].method, Method::Put);
    assert_eq!(run.requests[4].url, "http://dst:9400/orders/_alias/orders_current");
    assert_eq!(run.requests[4].body, None);

    // No call ever references the system index.
    for req in &run.requests {
        assert!(!req.url.contains(".security"));
    }
}

#[test]
fn discovery_transport_error_issues_nothing_more() {
    let events = vec![Event::Transport];
    let run = move_cluster(opts(), events);
    assert_eq!(run.status, RunStatus::Failed(MigrationError::Transport));
    assert_eq!(run.requests.len(), 1);
    assert_eq!(run.requests[0].url, "http://src:9200/_alias");
    assert!(run.logs.is_empty());
}

#[test]
fn discovery_bad_status_is_transport_error() {
    let events = vec![Event::Response { status: 503, body: "busy".to_string(), json: None }];
    let run = move_cluster(opts(), events);
    assert_eq!(run.status, RunStatus::Failed(MigrationError::Transport));
    assert_eq!(run.requests.len(), 1);
}

#[test]
fn discovery_unparsed_body_is_decode_error() {
    let events = vec![Event::Response { status: 200, body: "not json".to_string(), json: None }];
    let run = move_cluster(opts(), events);
    assert_eq!(run.status, RunStatus::Failed(MigrationError::Decode));
    assert_eq!(run.requests.len(), 1);
}

#[test]
fn discovery_unexpected_shape_is_decode_error() {
    // A non-internal index entry without an `aliases` object is a shape error.
    let listing = obj(vec![("orders", obj(vec![("other", obj(vec![]))]))]);
    let run = move_cluster(opts(), vec![ok_response(listing)]);
    assert_eq!(run.status, RunStatus::Failed(MigrationError::Decode));
    assert_eq!(run.requests.len(), 1);
}

#[test]
fn one_schema_failure_does_not_stop_the_run() {
    // Two indices; fetching the first one's schema fails with a bad status.
    let listing = obj(vec![("first", entry(vec![])), ("second", entry(vec![]))]);
    let second_schema = obj(vec![(
        "second",
        obj(vec![
            ("mappings", obj(vec![])),
            ("settings", obj(vec![("index", obj(vec![]))])),
        ]),
    )]);
    let events = vec![
        ok_response(listing),
        Event::Response { status: 500, body: "boom".to_string(), json: None }, // fetch of `first`
        ok_response(second_schema), // fetch of `second`
        ok_empty(),                 // create `second`
        ok_empty(),                 // reindex `first`
        ok_empty(),                 // reindex `second`
    ];
    let run = move_cluster(opts(), events);
    assert_eq!(run.status, RunStatus::Completed);
    let urls: Vec<&str> = run.requests.iter().map(|r| r.url.as_str()).collect();
    assert_eq!(
        urls,
        vec![
            "http://src:9200/_alias",
            "http://src:9200/first",
            "http://src:9200/second",
            "http://dst:9400/second",
            "http://dst:9400/_reindex",
            "http://dst:9400/_reindex",
        ]
    );
    // The failure was recorded against the failing index.
    match &run.logs[0] {
        cluster_mover::LogRecord::Error { operation, index, detail } => {
            assert_eq!(operation, "add_settings_mappings");
            assert_eq!(index, "first");
            assert_eq!(detail, "boom");
        },
        other => panic!("expected an error record, got {:?}", other),
    }
}

#[test]
fn zero_alias_index_gets_no_alias_request() {
    let listing = obj(vec![("plain", entry(vec![]))]);
    let schema = obj(vec![(
        "plain",
        obj(vec![
            ("mappings", obj(vec![])),
            ("settings", obj(vec![("index", obj(vec![]))])),
        ]),
    )]);
    let events = vec![ok_response(listing), ok_response(schema), ok_empty(), ok_empty()];
    let run = move_cluster(opts(), events);
    assert_eq!(run.status, RunStatus::Completed);
    assert_eq!(run.requests.len(), 4);
    assert!(run.requests.iter().all(|r| !r.url.contains("_alias/")));
}

#[test]
fn empty_listing_completes_without_further_requests() {
    let run = move_cluster(opts(), vec![ok_empty()]);
    assert_eq!(run.status, RunStatus::Completed);
    assert_eq!(run.requests.len(), 1);
    assert!(run.logs.is_empty());
}

#[test]
fn run_without_events_is_interrupted() {
    let run = move_cluster(opts(), vec![]);
    assert_eq!(run.status, RunStatus::Interrupted);
    assert_eq!(run.requests.len(), 1);
}

#[test]
fn non_success_statuses_are_logged_with_bodies() {
    let listing = obj(vec![("idx", entry(vec!["al"]))]);
    let schema = obj(vec![(
        "idx",
        obj(vec![
            ("mappings", obj(vec![])),
            ("settings", obj(vec![("index", obj(vec![]))])),
        ]),
    )]);
    let events = vec![
        ok_response(listing),
        ok_response(schema),
        Event::Response { status: 400, body: "exists".to_string(), json: None }, // create PUT
        ok_empty(),                                                              // reindex
        Event::Transport,                                                        // alias PUT
    ];
    let run = move_cluster(opts(), events);
    assert_eq!(run.status, RunStatus::Completed);
    // The failed PUT yields its routine record then an error record with the body.
    match &run.logs[0] {
        cluster_mover::LogRecord::Info { operation, index, status } => {
            assert_eq!(operation, "add_settings_mappings");
            assert_eq!(index, "idx");
            assert_eq!(*status, 400);
        },
        other => panic!("expected an info record, got {:?}", other),
    }
    match &run.logs[1] {
        cluster_mover::LogRecord::Error { operation, detail, .. } => {
            assert_eq!(operation, "add_settings_mappings");
            assert_eq!(detail, "exists");
        },
        other => panic!("expected an error record, got {:?}", other),
    }
    // The reindex succeeded: one routine record.
    match &run.logs[2] {
        cluster_mover::LogRecord::Info { operation, status, .. } => {
            assert_eq!(operation, "reindex");
            assert_eq!(*status, 200);
        },
        other => panic!("expected an info record, got {:?}", other),
    }
    // The alias request got no response: one error record against its index.
    match &run.logs[3] {
        cluster_mover::LogRecord::Error { operation, index, .. } => {
            assert_eq!(operation, "add_aliases");
            assert_eq!(index, "idx");
        },
        other => panic!("expected an error record, got {:?}", other),
    }
    assert_eq!(run.logs.len(), 4);
}
