use bill_pipeline::{
    build_prompt, locate, validate, Action, ContentUnit, DocumentFormat, Event, IngestRecord,
    ModelOutput, ModelResponse, Orchestrator, PipelineConfig, PipelineError, PROMPT_PREAMBLE,
    PROMPT_RULES,
};

const SCHEMA: &str = "{\"type\":\"object\",\"required\":[\"amount\",\"company\",\"subject\",\"date\"]}";

fn record(bucket: Option<&str>, key: Option<&str>) -> IngestRecord {
    IngestRecord { bucket: bucket.map(|b| b.to_string()), key: key.map(|k| k.to_string()) }
}

fn config() -> PipelineConfig {
    PipelineConfig { model_id: "m".to_string(), queue_url: "https://queue.example/q".to_string() }
}

fn message(units: Vec<ContentUnit>) -> ModelResponse {
    ModelResponse { output: Some(ModelOutput::Message(units)) }
}

fn text_response(text: &str) -> ModelResponse {
    message(vec![ContentUnit::Text(text.to_string())])
}

#[test]
fn test_event_handler() {
    let mut orch = Orchestrator::new(Vec::new(), config(), SCHEMA);
    assert!(matches!(orch.step(Event::Proceed), Action::Finish));
    assert_eq!(orch.published_count(), 0);
    assert!(orch.is_finished());
}

#[test]
fn validate_returns_leading_text() {
    let resp = message(vec![
        ContentUnit::Text("{\"amount\":1}".to_string()),
        ContentUnit::Text("ignored".to_string()),
    ]);
    assert_eq!(validate(&resp), Ok("{\"amount\":1}".to_string()));
}

#[test]
fn validate_accepts_text_that_is_not_json() {
    assert_eq!(validate(&text_response("not json at all")), Ok("not json at all".to_string()));
}

#[test]
fn validate_no_output() {
    assert_eq!(validate(&ModelResponse { output: None }), Err(PipelineError::NoOutput));
}

#[test]
fn validate_non_message_output() {
    let resp = ModelResponse { output: Some(ModelOutput::Other) };
    assert_eq!(validate(&resp), Err(PipelineError::UnsupportedOutputVariant));
}

#[test]
fn validate_empty_content() {
    assert_eq!(validate(&message(Vec::new())), Err(PipelineError::EmptyContent));
}

#[test]
fn validate_non_text_leading_unit() {
    let resp = message(vec![ContentUnit::Document("a.pdf".to_string()), ContentUnit::Text("x".to_string())]);
    assert_eq!(validate(&resp), Err(PipelineError::UnsupportedContentVariant));
    let resp = message(vec![ContentUnit::Other]);
    assert_eq!(validate(&resp), Err(PipelineError::UnsupportedContentVariant));
}

#[test]
fn prompt_embeds_schema_between_fixed_parts() {
    let prompt = build_prompt(SCHEMA);
    assert_eq!(prompt, format!("{}{}{}", PROMPT_PREAMBLE, SCHEMA, PROMPT_RULES));
    assert!(prompt.starts_with("Analyze this bill/invoice PDF"));
    assert!(prompt.contains("use 0"));
    assert!(prompt.contains("use today's date"));
    assert!(prompt.contains("use 'Unknown'"));
    assert!(prompt.ends_with("and no additional text"));
}

#[test]
fn prompt_is_deterministic() {
    assert_eq!(build_prompt(SCHEMA).as_bytes(), build_prompt(SCHEMA).as_bytes());
    assert_ne!(build_prompt(SCHEMA), build_prompt("{}"));
}

#[test]
fn locate_reads_both_fields() {
    let loc = locate(&record(Some("b"), Some("k"))).unwrap();
    assert_eq!(loc.bucket, "b");
    assert_eq!(loc.key, "k");
}

#[test]
fn locate_missing_key_or_bucket() {
    assert_eq!(locate(&record(Some("b"), None)).err(), Some(PipelineError::LocationMissing));
    assert_eq!(locate(&record(None, Some("k"))).err(), Some(PipelineError::LocationMissing));
}

#[test]
fn round_trip_publishes_extracted_text() {
    let body = "{\"amount\":42.5,\"company\":\"Acme\",\"subject\":\"Invoice\",\"date\":\"2024-01-01\"}";
    let mut orch = Orchestrator::new(vec![record(Some("b"), Some("k"))], config(), SCHEMA);
    match orch.step(Event::Proceed) {
        Action::Fetch(loc) => {
            assert_eq!(loc.bucket, "b");
            assert_eq!(loc.key, "k");
        }
        other => panic!("expected a fetch, got {:?}", other),
    }
    match orch.step(Event::Fetched(vec![1, 2, 3])) {
        Action::Invoke(req) => {
            assert_eq!(req.model_id, "m");
            assert_eq!(req.prompt, build_prompt(SCHEMA));
            assert_eq!(req.document.name, "k");
            assert_eq!(req.document.format, DocumentFormat::Pdf);
            assert_eq!(req.document.bytes, vec![1, 2, 3]);
        }
        other => panic!("expected an invocation, got {:?}", other),
    }
    match orch.step(Event::Invoked(text_response(body))) {
        Action::Publish { queue_url, body: published } => {
            assert_eq!(queue_url, "https://queue.example/q");
            assert_eq!(published, body);
        }
        other => panic!("expected a publish, got {:?}", other),
    }
    assert!(matches!(orch.step(Event::Published), Action::Finish));
    assert_eq!(orch.published_count(), 1);
}

#[test]
fn missing_key_fails_before_any_call() {
    let mut orch = Orchestrator::new(vec![record(Some("b"), None)], config(), SCHEMA);
    assert!(matches!(orch.step(Event::Proceed), Action::Abort(PipelineError::LocationMissing)));
    assert_eq!(orch.published_count(), 0);
    assert!(orch.is_finished());
}

/// Runs a batch where every call succeeds except that the fetch of record
/// `failing` fails; returns the records fetched and the messages published.
fn run_with_failure(n: usize, failing: usize) -> (Vec<String>, usize, Action) {
    let records: Vec<IngestRecord> = (0..n).map(|i| record(Some("b"), Some(&format!("k{}", i)))).collect();
    let mut orch = Orchestrator::new(records, config(), SCHEMA);
    let mut fetched = Vec::new();
    let mut action = orch.step(Event::Proceed);
    let mut publishes = 0;
    loop {
        let event = match &action {
            Action::Fetch(loc) => {
                fetched.push(loc.key.clone());
                if fetched.len() == failing + 1 { Event::FetchFailed } else { Event::Fetched(vec![0]) }
            }
            Action::Invoke(_) => Event::Invoked(text_response("{}")),
            Action::Publish { .. } => {
                publishes += 1;
                Event::Published
            }
            Action::Finish | Action::Abort(_) => break,
        };
        action = orch.step(event);
    }
    assert_eq!(publishes, orch.published_count());
    (fetched, publishes, action)
}

#[test]
fn first_failure_aborts_rest_of_batch() {
    let (fetched, publishes, action) = run_with_failure(5, 2);
    assert_eq!(publishes, 2);
    assert_eq!(fetched, vec!["k0".to_string(), "k1".to_string(), "k2".to_string()]);
    assert!(matches!(action, Action::Abort(PipelineError::FetchFailure)));
}

#[test]
fn failure_on_first_record_publishes_nothing() {
    let (fetched, publishes, _) = run_with_failure(3, 0);
    assert_eq!(publishes, 0);
    assert_eq!(fetched.len(), 1);
}

#[test]
fn batch_without_failure_publishes_every_record() {
    let (fetched, publishes, action) = run_with_failure(4, 10);
    assert_eq!(publishes, 4);
    assert_eq!(fetched.len(), 4);
    assert!(matches!(action, Action::Finish));
}

#[test]
fn failed_batch_stays_failed() {
    let mut orch = Orchestrator::new(vec![record(Some("b"), Some("k")), record(Some("b"), Some("k2"))], config(), SCHEMA);
    orch.step(Event::Proceed);
    orch.step(Event::Fetched(vec![7]));
    assert!(matches!(orch.step(Event::InvokeFailed), Action::Abort(PipelineError::InvocationFailure)));
    assert!(matches!(orch.step(Event::Published), Action::Abort(PipelineError::InvocationFailure)));
    assert!(matches!(orch.step(Event::Proceed), Action::Abort(PipelineError::InvocationFailure)));
    assert_eq!(orch.current_index(), 0);
    assert_eq!(orch.published_count(), 0);
}

#[test]
fn malformed_response_aborts_with_shape_error() {
    let mut orch = Orchestrator::new(vec![record(Some("b"), Some("k"))], config(), SCHEMA);
    orch.step(Event::Proceed);
    orch.step(Event::Fetched(vec![7]));
    let action = orch.step(Event::Invoked(message(Vec::new())));
    assert!(matches!(action, Action::Abort(PipelineError::EmptyContent)));
}

#[test]
fn publish_failure_aborts() {
    let mut orch = Orchestrator::new(vec![record(Some("b"), Some("k")), record(Some("b"), Some("k2"))], config(), SCHEMA);
    orch.step(Event::Proceed);
    orch.step(Event::Fetched(vec![7]));
    orch.step(Event::Invoked(text_response("{}")));
    assert!(matches!(orch.step(Event::PublishFailed), Action::Abort(PipelineError::PublishFailure)));
    assert_eq!(orch.published_count(), 0);
}

#[test]
fn error_messages_are_distinct() {
    assert_eq!(PipelineError::NoOutput.message(), "no response from the model");
    assert_ne!(PipelineError::EmptyContent.message(), PipelineError::UnsupportedContentVariant.message());
}
