use ollama_gateway::gateway::{
    api_generate_url, api_pull_url, effective_model, generate, health, ollama_pull, pull,
    pull_event_of, ready, PullError, PullOutcome, UpstreamOutcome,
};
use ollama_gateway::json::{generate_body, pull_body};
use ollama_gateway::readiness::{startup_preload_plan, step, PreloadPlan, ReadinessEvent};

#[test]
fn health_always_ok() {
    assert_eq!(health(), (200, "ok"));
}

#[test]
fn ready_reflects_signal() {
    assert_eq!(ready(false), (200, "{\"ready\":false}"));
    assert_eq!(ready(true), (200, "{\"ready\":true}"));
}

#[test]
fn readiness_is_monotonic() {
    // Starts false; a successful pull raises it; nothing lowers it again.
    let mut r = false;
    r = step(r, &ReadinessEvent::PullFailed);
    assert!(!r);
    r = step(r, &ReadinessEvent::PullSucceeded);
    assert!(r);
    r = step(r, &ReadinessEvent::PullFailed);
    assert!(r);
    r = step(r, &ReadinessEvent::PullSucceeded);
    assert!(r);
    r = step(r, &ReadinessEvent::PreloadDisabled);
    assert!(r);
}

#[test]
fn preload_disabled_sets_ready_without_pull() {
    // The plan issues no pull, and the startup event alone raises readiness.
    assert_eq!(startup_preload_plan(false), PreloadPlan::SetReadyImmediately);
    assert_eq!(startup_preload_plan(true), PreloadPlan::PullAfterGrace);
    assert!(step(false, &ReadinessEvent::PreloadDisabled));
}

#[test]
fn successful_pull_sets_ready_idempotently() {
    let ok = PullOutcome::Reply { status: 200 };
    let first = pull(false, &ok);
    assert_eq!(first, (200, "pulled", true));
    let second = pull(first.2, &ok);
    assert_eq!(second, (200, "pulled", true));
    // A later pull from an already-ready state changes nothing.
    assert_eq!(pull(true, &ok), (200, "pulled", true));
}

#[test]
fn failed_pull_answers_bad_gateway_and_keeps_ready() {
    let bad = PullOutcome::Reply { status: 500 };
    assert_eq!(pull(false, &bad), (502, "pull failed", false));
    assert_eq!(pull(true, &bad), (502, "pull failed", true));
    let down = PullOutcome::Unreachable;
    assert_eq!(pull(false, &down), (502, "pull failed", false));
}

#[test]
fn pull_classification() {
    assert_eq!(ollama_pull(&PullOutcome::Reply { status: 200 }), Ok(()));
    assert_eq!(ollama_pull(&PullOutcome::Reply { status: 204 }), Ok(()));
    assert_eq!(
        ollama_pull(&PullOutcome::Reply { status: 500 }),
        Err(PullError::UpstreamStatus)
    );
    assert_eq!(
        ollama_pull(&PullOutcome::Reply { status: 302 }),
        Err(PullError::UpstreamStatus)
    );
    assert_eq!(ollama_pull(&PullOutcome::Unreachable), Err(PullError::Transport));
}

#[test]
fn pull_event_matches_outcome() {
    assert_eq!(
        pull_event_of(&PullOutcome::Reply { status: 200 }),
        ReadinessEvent::PullSucceeded
    );
    assert_eq!(
        pull_event_of(&PullOutcome::Reply { status: 500 }),
        ReadinessEvent::PullFailed
    );
    assert_eq!(pull_event_of(&PullOutcome::Unreachable), ReadinessEvent::PullFailed);
}

#[test]
fn model_defaulting() {
    let default = "gemma3:27b".to_string();
    assert_eq!(effective_model(Some("llama3:8b".to_string()), &default), "llama3:8b");
    assert_eq!(effective_model(None, &default), "gemma3:27b");
}

#[test]
fn generate_body_uses_caller_model() {
    let body = generate_body("llama3:8b", "hello");
    assert_eq!(
        body,
        b"{\"model\":\"llama3:8b\",\"prompt\":\"hello\",\"stream\":false}".to_vec()
    );
}

#[test]
fn generate_body_uses_default_model_when_absent() {
    let model = effective_model(None, &"gemma3:27b".to_string());
    let body = generate_body(&model, "hello");
    assert_eq!(
        body,
        b"{\"model\":\"gemma3:27b\",\"prompt\":\"hello\",\"stream\":false}".to_vec()
    );
}

#[test]
fn bodies_escape_like_json() {
    let body = generate_body("m\"x", "a\\b\nc\td\u{1}e");
    let expected = format!(
        "{{\"model\":{},\"prompt\":{},\"stream\":false}}",
        "\"m\\\"x\"", "\"a\\\\b\\nc\\td\\u0001e\""
    );
    assert_eq!(body, expected.into_bytes());
    assert_eq!(
        pull_body("m\u{8}\u{c}\r\u{1f}"),
        b"{\"model\":\"m\\b\\f\\r\\u001f\",\"stream\":false}".to_vec()
    );
    // Multi-byte UTF-8 passes through unchanged.
    assert_eq!(
        pull_body("héllo"),
        "{\"model\":\"héllo\",\"stream\":false}".as_bytes().to_vec()
    );
}

#[test]
fn generate_passes_upstream_through() {
    let out = generate(UpstreamOutcome::Reply {
        status: 200,
        body: "{\"response\":\"hi\"}".to_string(),
    });
    assert_eq!(out, (200, "{\"response\":\"hi\"}".to_string()));
    // Non-success upstream statuses pass through too.
    let out = generate(UpstreamOutcome::Reply { status: 404, body: "nope".to_string() });
    assert_eq!(out, (404, "nope".to_string()));
}

#[test]
fn generate_failures_are_bad_gateway() {
    assert_eq!(
        generate(UpstreamOutcome::Unreachable),
        (502, "upstream error".to_string())
    );
    assert_eq!(
        generate(UpstreamOutcome::BodyUnreadable { status: 200 }),
        (502, "upstream read error".to_string())
    );
}

#[test]
fn upstream_urls() {
    assert_eq!(
        api_generate_url("http://localhost:11434"),
        "http://localhost:11434/api/generate"
    );
    assert_eq!(api_pull_url("http://localhost:11434"), "http://localhost:11434/api/pull");
}

#[test]
fn scenario_preload_disabled_generate_passthrough() {
    // Startup with preload disabled: readiness rises without any pull.
    let plan = startup_preload_plan(false);
    assert_eq!(plan, PreloadPlan::SetReadyImmediately);
    let r = step(false, &ReadinessEvent::PreloadDisabled);
    assert!(r);
    assert_eq!(ready(r), (200, "{\"ready\":true}"));
    // The upstream mock answers the generation endpoint with 200 and a body:
    // the gateway passes both through unmodified.
    let body = generate_body(&effective_model(None, &"gemma3:27b".to_string()), "hello");
    assert_eq!(
        body,
        b"{\"model\":\"gemma3:27b\",\"prompt\":\"hello\",\"stream\":false}".to_vec()
    );
    let out = generate(UpstreamOutcome::Reply {
        status: 200,
        body: "{\"response\":\"hi\"}".to_string(),
    });
    assert_eq!(out, (200, "{\"response\":\"hi\"}".to_string()));
}

#[test]
fn scenario_pull_500_leaves_not_ready() {
    // The upstream mock answers the pull endpoint with 500: the gateway
    // answers 502 "pull failed" and readiness stays false.
    let mut r = false;
    let (status, body, new_ready) = pull(r, &PullOutcome::Reply { status: 500 });
    r = new_ready;
    assert_eq!(status, 502);
    assert_eq!(body, "pull failed");
    assert!(!r);
    assert_eq!(ready(r), (200, "{\"ready\":false}"));
}
