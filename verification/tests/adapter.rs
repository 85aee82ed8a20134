//! The per-operation handler adapter: envelope rule, decode and action
//! failure passthrough, fan-out ordering, and end-to-end scenarios
//! through the verified method table.

use std::marker::PhantomData;

use buckets_mdapi::json::Json;
use buckets_mdapi::log::{LogLevel, LogSink, RecordingLog};
use buckets_mdapi::metrics::RecordingMetrics;
use buckets_mdapi::stubs::{
    DecodeScript, EchoAction, FanOutAction, FixedErrorAction, FixedPool, ScriptedDecoder,
    StubPayload,
};
use buckets_mdapi::table::{AdapterEntry, MethodTable};
use buckets_mdapi::types::{HandlerError, HandlerResponse, Message};
use buckets_mdapi::util::{handle_msg, handle_request, unwrap_fast_message};

fn ok_pool() -> FixedPool<u32> {
    FixedPool { connection: 1, failure: None }
}

fn request(method: &str) -> Message {
    Message { id: 11, method: method.to_string(), data: Json::Array(vec![Json::Object(vec![])]) }
}

fn echo_entry(script: DecodeScript) -> AdapterEntry<StubPayload, ScriptedDecoder, EchoAction> {
    AdapterEntry { decoder: ScriptedDecoder { script }, action: EchoAction, payload: PhantomData }
}

/// A table wired as a process would: `getobject` decodes one payload,
/// `listobjects` decodes an empty envelope, `deletegcbatch` fails
/// decoding, the rest decode one plain payload.
fn ops_table() -> MethodTable<
    AdapterEntry<StubPayload, ScriptedDecoder, EchoAction>,
    AdapterEntry<StubPayload, ScriptedDecoder, EchoAction>,
    AdapterEntry<StubPayload, ScriptedDecoder, EchoAction>,
    AdapterEntry<StubPayload, ScriptedDecoder, EchoAction>,
    AdapterEntry<StubPayload, ScriptedDecoder, EchoAction>,
    AdapterEntry<StubPayload, ScriptedDecoder, EchoAction>,
    AdapterEntry<StubPayload, ScriptedDecoder, EchoAction>,
    AdapterEntry<StubPayload, ScriptedDecoder, EchoAction>,
    AdapterEntry<StubPayload, ScriptedDecoder, EchoAction>,
    AdapterEntry<StubPayload, ScriptedDecoder, EchoAction>,
    AdapterEntry<StubPayload, ScriptedDecoder, EchoAction>,
> {
    MethodTable {
        getobject: echo_entry(DecodeScript::Produce(vec![
            "7a94f902-8a4e-4b3c-9c6e-0f4b6c1a2d3e".to_string(),
        ])),
        createobject: echo_entry(DecodeScript::Produce(vec!["p".to_string()])),
        updateobject: echo_entry(DecodeScript::Produce(vec!["p".to_string()])),
        deleteobject: echo_entry(DecodeScript::Produce(vec!["p".to_string()])),
        listobjects: echo_entry(DecodeScript::Produce(Vec::new())),
        getbucket: echo_entry(DecodeScript::Produce(vec!["p".to_string()])),
        createbucket: echo_entry(DecodeScript::Produce(vec!["p".to_string()])),
        deletebucket: echo_entry(DecodeScript::Produce(vec!["p".to_string()])),
        listbuckets: echo_entry(DecodeScript::Produce(vec!["p".to_string()])),
        getgcbatch: echo_entry(DecodeScript::Produce(vec!["p".to_string()])),
        deletegcbatch: echo_entry(DecodeScript::Reject(
            "invalid type: string \"x\", expected a garbage-collection batch id at line 1 column 9"
                .to_string(),
        )),
    }
}

#[test]
fn single_element_envelope_reaches_the_action() {
    let table = ops_table();
    let mut metrics = RecordingMetrics::new();
    let mut log = RecordingLog::new();
    let msg = request("getobject");
    let r = handle_msg(&msg, &ok_pool(), &mut metrics, &mut log, &table);
    let out = r.expect("a well-formed request must succeed");
    assert_eq!(out.len(), 1);
    assert_eq!(out[0].id, 11);
    // The echo body carries the decoded payload's request id: the
    // action really received the envelope's first element.
    assert_eq!(out[0].data, Json::Text("7a94f902-8a4e-4b3c-9c6e-0f4b6c1a2d3e".to_string()));
    assert_eq!(metrics.observations, vec![("getobject".to_string(), true)]);
}

#[test]
fn empty_envelope_fails_before_the_action() {
    let table = ops_table();
    let mut metrics = RecordingMetrics::new();
    let mut log = RecordingLog::new();
    let msg = request("listobjects");
    let r = handle_msg(&msg, &ok_pool(), &mut metrics, &mut log, &table);
    match r {
        Err(e) => assert_eq!(
            e.message(),
            "Failed to parse JSON data as payload for listobjects function"
        ),
        Ok(_) => panic!("an empty envelope must fail"),
    }
    assert_eq!(metrics.observations, vec![("listobjects".to_string(), false)]);
    // The envelope warning reaches the caller's log, tagged with the method.
    let method_field = vec![("method".to_string(), "listobjects".to_string())];
    assert_eq!(
        log.lines,
        vec![
            (method_field.clone(), LogLevel::Debug, "handling request".to_string()),
            (
                method_field,
                LogLevel::Warn,
                "Failed to parse JSON data as payload for listobjects function".to_string()
            ),
        ]
    );
    assert!(log.fields.is_empty());
}

#[test]
fn adapter_lines_reach_the_callers_logger() {
    let table = ops_table();
    let mut metrics = RecordingMetrics::new();
    let mut log = RecordingLog::new();
    let msg = request("getobject");
    let r = handle_msg(&msg, &ok_pool(), &mut metrics, &mut log, &table);
    assert!(r.is_ok());
    let method_field = ("method".to_string(), "getobject".to_string());
    let id_field = ("req_id".to_string(), "7a94f902-8a4e-4b3c-9c6e-0f4b6c1a2d3e".to_string());
    assert_eq!(
        log.lines,
        vec![
            (vec![method_field.clone()], LogLevel::Debug, "handling request".to_string()),
            (vec![method_field, id_field], LogLevel::Debug, "parsed payload".to_string()),
        ]
    );
    assert!(log.fields.is_empty());
}

#[test]
fn decode_failure_carries_the_decoder_message() {
    let table = ops_table();
    let mut metrics = RecordingMetrics::new();
    let mut log = RecordingLog::new();
    let msg = request("deletegcbatch");
    let r = handle_msg(&msg, &ok_pool(), &mut metrics, &mut log, &table);
    match r {
        Err(e) => assert_eq!(
            e.message(),
            "invalid type: string \"x\", expected a garbage-collection batch id at line 1 column 9"
        ),
        Ok(_) => panic!("a decode failure must fail the request"),
    }
}

#[test]
fn action_failure_passes_through_unchanged() {
    let mut metrics = RecordingMetrics::new();
    let mut log = RecordingLog::new();
    let mut conn: u32 = 1;
    let action = FixedErrorAction { text: "requested limit too large".to_string() };
    let r = handle_request(
        5,
        "createbucket",
        Ok(vec![StubPayload { request_id: "req-1".to_string() }]),
        &mut conn,
        &action,
        &mut metrics,
        &mut log,
    );
    match r {
        Err(HandlerError::RequestError(s)) => assert_eq!(s, "requested limit too large"),
        _ => panic!("the action's failure text must pass through"),
    }
}

#[test]
fn fan_out_preserves_action_order() {
    let mut metrics = RecordingMetrics::new();
    let mut log = RecordingLog::new();
    let mut conn: u32 = 1;
    let action = FanOutAction { pages: vec!["page-one".to_string(), "page-two".to_string()] };
    let r = handle_request(
        9,
        "listbuckets",
        Ok(vec![StubPayload { request_id: "req-2".to_string() }]),
        &mut conn,
        &action,
        &mut metrics,
        &mut log,
    );
    match r {
        Ok(resp) => {
            let out = resp.into_messages();
            assert_eq!(out.len(), 2);
            assert_eq!(out[0].id, 9);
            assert_eq!(out[1].id, 9);
            assert_eq!(out[0].data, Json::Text("page-one".to_string()));
            assert_eq!(out[1].data, Json::Text("page-two".to_string()));
        }
        Err(_) => panic!("a fan-out action must succeed"),
    }
}

#[test]
fn extra_envelope_elements_are_dropped() {
    let mut log = RecordingLog::new();
    let first = StubPayload { request_id: "first".to_string() };
    let second = StubPayload { request_id: "second".to_string() };
    let r = unwrap_fast_message("getbucket", &mut log, vec![first, second]);
    match r {
        Ok(p) => assert_eq!(p.request_id, "first"),
        Err(_) => panic!("a non-empty envelope must unwrap"),
    }
    assert!(log.lines.is_empty());
}

#[test]
fn empty_envelope_warns_with_the_fixed_message() {
    let mut log = RecordingLog::new();
    let r = unwrap_fast_message::<StubPayload, RecordingLog>("getbucket", &mut log, Vec::new());
    match r {
        Err(e) => assert_eq!(e, "Failed to parse JSON data as payload for getbucket function"),
        Ok(_) => panic!("an empty envelope must fail"),
    }
    assert_eq!(
        log.lines,
        vec![(
            vec![],
            LogLevel::Warn,
            "Failed to parse JSON data as payload for getbucket function".to_string()
        )]
    );
}

#[test]
fn limit_constraint_error_is_the_bare_error_object() {
    let body = buckets_mdapi::util::limit_constraint_error("requested limit too large".to_string());
    let expected = Json::Object(vec![(
        "error".to_string(),
        Json::Object(vec![
            ("name".to_string(), Json::Text("LimitConstraintError".to_string())),
            ("message".to_string(), Json::Text("requested limit too large".to_string())),
        ]),
    )]);
    assert_eq!(body, expected);
}

#[test]
fn thread_display_name_defaults_to_unnamed() {
    assert_eq!(buckets_mdapi::util::thread_display_name(None), "unnamed");
    assert_eq!(buckets_mdapi::util::thread_display_name(Some("worker-3")), "worker-3");
}

#[test]
fn handler_response_wraps_single_and_many() {
    let m = Message { id: 3, method: "getbucket".to_string(), data: Json::Null };
    let single = HandlerResponse::from(m);
    match &single {
        HandlerResponse::Message(inner) => assert_eq!(inner.id, 3),
        HandlerResponse::Messages(_) => panic!("one message must wrap as a single response"),
    }
    assert_eq!(single.into_messages().len(), 1);

    let many = HandlerResponse::from(vec![
        Message { id: 4, method: "listbuckets".to_string(), data: Json::Null },
        Message { id: 4, method: "listbuckets".to_string(), data: Json::Null },
    ]);
    let out = many.into_messages();
    assert_eq!(out.len(), 2);
    assert_eq!(out[0].id, 4);
}

#[test]
fn log_context_stack_tags_lines_and_restores() {
    let mut log = RecordingLog::new();
    log.log(LogLevel::Debug, "plain line");
    log.push_context("method", "getobject");
    log.push_context("req_id", "abc");
    log.log(LogLevel::Debug, "tagged line");
    log.pop_context();
    log.pop_context();
    assert!(log.fields.is_empty());
    assert_eq!(log.lines.len(), 2);
    assert_eq!(log.lines[0], (vec![], LogLevel::Debug, "plain line".to_string()));
    assert_eq!(
        log.lines[1],
        (
            vec![
                ("method".to_string(), "getobject".to_string()),
                ("req_id".to_string(), "abc".to_string())
            ],
            LogLevel::Debug,
            "tagged line".to_string()
        )
    );
}
