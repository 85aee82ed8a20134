//! End-to-end behaviour of the dispatch engine, driven through the
//! library's verified method table, fixed-outcome pools and recording
//! sinks. Each table entry's decoder produces a payload marked with
//! its own method name, and the echo action writes that marker into
//! the response body, so a response shows which entry served it.

use std::marker::PhantomData;

use buckets_mdapi::json::Json;
use buckets_mdapi::log::{LogLevel, RecordingLog};
use buckets_mdapi::metrics::RecordingMetrics;
use buckets_mdapi::methods::{parse_method, Method};
use buckets_mdapi::stubs::{DecodeScript, EchoAction, FixedErrorAction, FixedPool, ScriptedDecoder};
use buckets_mdapi::table::{AdapterEntry, MethodTable};
use buckets_mdapi::types::{Message, PoolError};
use buckets_mdapi::util::{claim_pool_connection, handle_msg};

type EchoEntry = AdapterEntry<buckets_mdapi::stubs::StubPayload, ScriptedDecoder, EchoAction>;
type EchoTable = MethodTable<
    EchoEntry,
    EchoEntry,
    EchoEntry,
    EchoEntry,
    EchoEntry,
    EchoEntry,
    EchoEntry,
    EchoEntry,
    EchoEntry,
    EchoEntry,
    EchoEntry,
>;

fn echo_entry(marker: &str) -> EchoEntry {
    AdapterEntry {
        decoder: ScriptedDecoder { script: DecodeScript::Produce(vec![marker.to_string()]) },
        action: EchoAction,
        payload: PhantomData,
    }
}

fn echo_table() -> EchoTable {
    MethodTable {
        getobject: echo_entry("getobject-payload"),
        createobject: echo_entry("createobject-payload"),
        updateobject: echo_entry("updateobject-payload"),
        deleteobject: echo_entry("deleteobject-payload"),
        listobjects: echo_entry("listobjects-payload"),
        getbucket: echo_entry("getbucket-payload"),
        createbucket: echo_entry("createbucket-payload"),
        deletebucket: echo_entry("deletebucket-payload"),
        listbuckets: echo_entry("listbuckets-payload"),
        getgcbatch: echo_entry("getgcbatch-payload"),
        deletegcbatch: echo_entry("deletegcbatch-payload"),
    }
}

fn ok_pool() -> FixedPool<u32> {
    FixedPool { connection: 7, failure: None }
}

fn timeout_pool() -> FixedPool<u32> {
    FixedPool {
        connection: 0,
        failure: Some(PoolError::ClaimTimeout(
            "unable to claim a connection before the timeout".to_string(),
        )),
    }
}

fn fail_pool() -> FixedPool<u32> {
    FixedPool {
        connection: 0,
        failure: Some(PoolError::Other("backend connectivity failure".to_string())),
    }
}

fn request(method: &str) -> Message {
    Message { id: 42, method: method.to_string(), data: Json::Array(vec![Json::Object(vec![])]) }
}

fn overload_body_json(text: &str) -> Json {
    Json::Array(vec![Json::Object(vec![(
        "error".to_string(),
        Json::Object(vec![
            ("name".to_string(), Json::Text("OverloadedError".to_string())),
            ("message".to_string(), Json::Text(text.to_string())),
        ]),
    )])])
}

#[test]
fn routes_each_registered_method_to_its_own_entry() {
    let names = [
        "getobject",
        "createobject",
        "updateobject",
        "deleteobject",
        "listobjects",
        "getbucket",
        "createbucket",
        "deletebucket",
        "listbuckets",
        "getgcbatch",
        "deletegcbatch",
    ];
    let table = echo_table();
    for name in names {
        let mut metrics = RecordingMetrics::new();
        let mut log = RecordingLog::new();
        let msg = request(name);
        let r = handle_msg(&msg, &ok_pool(), &mut metrics, &mut log, &table);
        let out = r.expect("a registered method with a good payload must succeed");
        assert_eq!(out.len(), 1);
        assert_eq!(out[0].id, 42);
        assert_eq!(out[0].method, name);
        // The body names the payload only this method's own entry decodes.
        assert_eq!(out[0].data, Json::Text(format!("{}-payload", name)));
        assert_eq!(metrics.observations, vec![(name.to_string(), true)]);
    }
}

#[test]
fn unknown_method_fails_naming_the_method() {
    let table = echo_table();
    let mut metrics = RecordingMetrics::new();
    let mut log = RecordingLog::new();
    let msg = request("frobnicate");
    let r = handle_msg(&msg, &ok_pool(), &mut metrics, &mut log, &table);
    match r {
        Err(e) => assert_eq!(e.message(), "Unsupported function: frobnicate"),
        Ok(_) => panic!("an unregistered method must not produce responses"),
    }
    assert_eq!(metrics.observations, vec![("frobnicate".to_string(), false)]);
}

#[test]
fn empty_method_name_is_unsupported() {
    let table = echo_table();
    let mut metrics = RecordingMetrics::new();
    let mut log = RecordingLog::new();
    let msg = request("");
    let r = handle_msg(&msg, &ok_pool(), &mut metrics, &mut log, &table);
    match r {
        Err(e) => assert_eq!(e.message(), "Unsupported function: "),
        Ok(_) => panic!("an empty method name must be rejected"),
    }
}

#[test]
fn claim_timeout_returns_successful_overload_response() {
    let table = echo_table();
    let mut metrics = RecordingMetrics::new();
    let mut log = RecordingLog::new();
    let msg = request("createbucket");
    let r = handle_msg(&msg, &timeout_pool(), &mut metrics, &mut log, &table);
    let out = r.expect("a claim timeout must surface as a successful response");
    assert_eq!(out.len(), 1);
    assert_eq!(out[0].id, 42);
    assert_eq!(out[0].method, "createbucket");
    assert_eq!(out[0].data, overload_body_json("unable to claim a connection before the timeout"));
    assert_eq!(metrics.observations, vec![("createbucket".to_string(), false)]);
    assert_eq!(metrics.claims, vec![false]);
    assert_eq!(
        log.lines,
        vec![(vec![], LogLevel::Warn, "timed out claiming connection".to_string())]
    );
}

#[test]
fn other_pool_error_is_fatal_and_logged_at_error_level() {
    let table = echo_table();
    let mut metrics = RecordingMetrics::new();
    let mut log = RecordingLog::new();
    let msg = request("getobject");
    let r = handle_msg(&msg, &fail_pool(), &mut metrics, &mut log, &table);
    match r {
        Err(e) => assert_eq!(e.message(), "backend connectivity failure"),
        Ok(_) => panic!("a non-timeout pool error must fail the request"),
    }
    assert_eq!(metrics.observations, vec![("getobject".to_string(), false)]);
    assert_eq!(metrics.claims, vec![false]);
    assert_eq!(
        log.lines,
        vec![(vec![], LogLevel::Error, "unexpected error claiming connection".to_string())]
    );
}

#[test]
fn request_counter_increments_once_whatever_the_outcome() {
    let table = echo_table();
    let msg = request("getobject");

    let mut metrics = RecordingMetrics::new();
    let mut log = RecordingLog::new();
    let _ = handle_msg(&msg, &ok_pool(), &mut metrics, &mut log, &table);
    assert_eq!(metrics.request_count(), 1);

    let mut metrics = RecordingMetrics::new();
    let mut log = RecordingLog::new();
    let _ = handle_msg(&msg, &timeout_pool(), &mut metrics, &mut log, &table);
    assert_eq!(metrics.request_count(), 1);

    let mut metrics = RecordingMetrics::new();
    let mut log = RecordingLog::new();
    let _ = handle_msg(&msg, &fail_pool(), &mut metrics, &mut log, &table);
    assert_eq!(metrics.request_count(), 1);

    let mut metrics = RecordingMetrics::new();
    let mut log = RecordingLog::new();
    let _ = handle_msg(&request("frobnicate"), &ok_pool(), &mut metrics, &mut log, &table);
    assert_eq!(metrics.request_count(), 1);
}

#[test]
fn claim_histogram_gets_one_observation_per_attempt() {
    let mut metrics = RecordingMetrics::new();
    let r = claim_pool_connection(&ok_pool(), &mut metrics);
    assert_eq!(r.ok(), Some(7));
    assert_eq!(metrics.claims, vec![true]);

    let r = claim_pool_connection(&timeout_pool(), &mut metrics);
    assert!(r.is_err());
    assert_eq!(metrics.claims, vec![true, false]);

    let r = claim_pool_connection(&fail_pool(), &mut metrics);
    assert!(r.is_err());
    assert_eq!(metrics.claims, vec![true, false, false]);
    assert_eq!(metrics.request_count(), 0);
    assert!(metrics.observations.is_empty());
}

#[test]
fn handler_failure_collapses_to_its_message() {
    let entry = |_: &str| AdapterEntry::<buckets_mdapi::stubs::StubPayload, _, _> {
        decoder: ScriptedDecoder { script: DecodeScript::Produce(vec!["p".to_string()]) },
        action: FixedErrorAction { text: "object not found".to_string() },
        payload: PhantomData,
    };
    let table = MethodTable {
        getobject: entry("getobject"),
        createobject: entry("createobject"),
        updateobject: entry("updateobject"),
        deleteobject: entry("deleteobject"),
        listobjects: entry("listobjects"),
        getbucket: entry("getbucket"),
        createbucket: entry("createbucket"),
        deletebucket: entry("deletebucket"),
        listbuckets: entry("listbuckets"),
        getgcbatch: entry("getgcbatch"),
        deletegcbatch: entry("deletegcbatch"),
    };
    let mut metrics = RecordingMetrics::new();
    let mut log = RecordingLog::new();
    let msg = request("getobject");
    let r = handle_msg(&msg, &ok_pool(), &mut metrics, &mut log, &table);
    match r {
        Err(e) => assert_eq!(e.message(), "object not found"),
        Ok(_) => panic!("a handler failure must fail the request"),
    }
    assert_eq!(metrics.observations, vec![("getobject".to_string(), false)]);
}

#[test]
fn parse_method_matches_exactly() {
    assert_eq!(parse_method("getobject"), Some(Method::GetObject));
    assert_eq!(parse_method("GETOBJECT"), None);
    assert_eq!(parse_method("getobject "), None);
    assert_eq!(parse_method(""), None);
    assert_eq!(Method::DeleteGcBatch.name(), "deletegcbatch");
}
