use ai_commit::api::Api;
use ai_commit::args::Args;
use ai_commit::decoder::{
    classify_event, decode_payload, decode_record, EventClass, Fragment, Resp, RespChoice,
    RespDelta, RespUsage, StreamEvent,
};
use ai_commit::render::{Emission, Phase, RenderError, RenderState};

fn text(v: &serde_json::Value, key: &str) -> Result<Option<String>, String> {
    match v.get(key) {
        None => Ok(None),
        Some(x) if x.is_null() => Ok(None),
        Some(x) => x
            .as_str()
            .map(|s| Some(s.to_owned()))
            .ok_or_else(|| format!("invalid type for `{key}`")),
    }
}

fn parse_resp(payload: &str) -> Result<Resp, String> {
    let v: serde_json::Value = serde_json::from_str(payload).map_err(|e| e.to_string())?;
    if !v.is_object() {
        return Err("expected an object".to_owned());
    }
    let arr = v
        .get("choices")
        .and_then(|c| c.as_array())
        .ok_or_else(|| "missing field `choices`".to_owned())?;
    let mut choices = Vec::new();
    for c in arr {
        let delta = c
            .get("delta")
            .filter(|d| d.is_object())
            .ok_or_else(|| "missing field `delta`".to_owned())?;
        choices.push(RespChoice {
            finish_reason: text(c, "finish_reason")?,
            delta: RespDelta {
                content: text(delta, "content")?,
                reasoning_content: text(delta, "reasoning_content")?,
            },
        });
    }
    let usage = match v.get("usage") {
        Some(u) if !u.is_null() => {
            if !u.is_object() {
                return Err("invalid type for `usage`".to_owned());
            }
            let n = |k: &str| u.get(k).and_then(|x| x.as_u64()).ok_or_else(|| format!("missing `{k}`"));
            Some(RespUsage {
                prompt_tokens: n("prompt_tokens")?,
                completion_tokens: n("completion_tokens")?,
                total_tokens: n("total_tokens")?,
            })
        }
        _ => None,
    };
    Ok(Resp { choices, usage })
}

/// Runs events through the decoder and the renderer until the stream ends
/// or fails.
fn run(events: Vec<StreamEvent>, show: bool) -> (Vec<Emission>, Option<RenderError>) {
    let mut state = RenderState::new(show);
    let mut shown = Vec::new();
    for ev in events {
        let frags = match classify_event(ev) {
            EventClass::Skip => continue,
            EventClass::End => break,
            EventClass::Payload(p) => decode_payload(parse_resp(&p)),
            EventClass::Failed(f) => vec![f],
        };
        for f in frags {
            match state.step(f) {
                Ok(mut e) => shown.append(&mut e),
                Err(err) => return (shown, Some(err)),
            }
            if state.is_done() {
                return (shown, None);
            }
        }
    }
    state.end_of_stream();
    (shown, None)
}

fn msg(s: &str) -> StreamEvent {
    StreamEvent::Message(s.to_owned())
}

fn content_only(shown: &[Emission]) -> String {
    shown
        .iter()
        .filter_map(|e| match e {
            Emission::Content(t) => Some(t.as_str()),
            _ => None,
        })
        .collect()
}

#[test]
fn single_content_delta_then_done() {
    let events = vec![
        StreamEvent::Open,
        msg("{\"choices\":[{\"delta\":{\"content\":\"Fix bug\"}}]}"),
        msg("[DONE]"),
    ];
    let frags = decode_payload(parse_resp("{\"choices\":[{\"delta\":{\"content\":\"Fix bug\"}}]}"));
    assert_eq!(frags.len(), 1);
    assert!(matches!(&frags[0], Fragment::ContentDelta(t) if t == "Fix bug"));
    let (shown, err) = run(events, false);
    assert!(err.is_none());
    assert_eq!(shown, vec![Emission::Content("Fix bug".to_owned())]);
}

#[test]
fn length_finish_is_abnormal() {
    let payload = "{\"choices\":[{\"delta\":{\"content\":\"abc\"},\"finish_reason\":\"length\"}]}";
    let frags = decode_payload(parse_resp(payload));
    assert!(matches!(&frags[0], Fragment::FinishSignal(r) if r == "length"));
    let events = vec![
        msg(payload),
        msg("{\"choices\":[],\"usage\":{\"prompt_tokens\":1,\"completion_tokens\":2,\"total_tokens\":3}}"),
        msg("[DONE]"),
    ];
    let (shown, err) = run(events, true);
    assert_eq!(err, Some(RenderError::AbnormalFinish("length".to_owned())));
    assert!(shown.is_empty());
}

#[test]
fn invalid_json_is_a_decode_error() {
    let frags = decode_payload(parse_resp("not valid json"));
    assert_eq!(frags.len(), 1);
    assert!(matches!(&frags[0], Fragment::DecodeError(_)));
    let events = vec![
        msg("{\"choices\":[{\"delta\":{\"content\":\"partial\"}}]}"),
        msg("not valid json"),
        msg("{\"choices\":[{\"delta\":{\"content\":\"never\"}}]}"),
    ];
    let (shown, err) = run(events, false);
    assert!(matches!(err, Some(RenderError::Decode(_))));
    assert_eq!(shown, vec![Emission::Content("partial".to_owned())]);
}

#[test]
fn reasoning_shown_then_separator_then_content() {
    let events = vec![
        msg("{\"choices\":[{\"delta\":{\"reasoning_content\":\"thinking\"}}]}"),
        msg("{\"choices\":[{\"delta\":{\"content\":\"answer\"}}]}"),
        msg("[DONE]"),
    ];
    let (shown, err) = run(events, true);
    assert!(err.is_none());
    assert_eq!(
        shown,
        vec![
            Emission::ReasoningNotice,
            Emission::Reasoning("thinking".to_owned()),
            Emission::Separator,
            Emission::Content("answer".to_owned()),
        ]
    );
}

#[test]
fn reasoning_hidden_leaves_no_separator() {
    let events = vec![
        msg("{\"choices\":[{\"delta\":{\"reasoning_content\":\"thinking\"}}]}"),
        msg("{\"choices\":[{\"delta\":{\"reasoning_content\":\" more\"}}]}"),
        msg("{\"choices\":[{\"delta\":{\"content\":\"answer\"}}]}"),
        msg("[DONE]"),
    ];
    let (shown, err) = run(events, false);
    assert!(err.is_none());
    assert_eq!(shown, vec![Emission::ReasoningNotice, Emission::Content("answer".to_owned())]);
    assert!(!shown.contains(&Emission::Separator));
    assert_eq!(content_only(&shown), "answer");
}

#[test]
fn usage_ends_the_stream() {
    let events = vec![
        msg("{\"choices\":[{\"delta\":{\"content\":\"a\"}}]}"),
        msg("{\"choices\":[{\"delta\":{\"content\":\"b\"},\"finish_reason\":\"stop\"}]}"),
        msg("{\"choices\":[],\"usage\":{\"prompt_tokens\":10,\"completion_tokens\":20,\"total_tokens\":30}}"),
        msg("{\"choices\":[{\"delta\":{\"content\":\"after\"}}]}"),
    ];
    let (shown, err) = run(events, false);
    assert!(err.is_none());
    let usage = RespUsage { prompt_tokens: 10, completion_tokens: 20, total_tokens: 30 };
    assert_eq!(
        shown,
        vec![
            Emission::Content("a".to_owned()),
            Emission::Content("b".to_owned()),
            Emission::Usage(usage),
        ]
    );
}

#[test]
fn events_are_classified() {
    assert!(matches!(classify_event(StreamEvent::Open), EventClass::Skip));
    assert!(matches!(classify_event(msg("[DONE]")), EventClass::End));
    assert!(matches!(classify_event(msg("[DONE] ")), EventClass::Payload(p) if p == "[DONE] "));
    assert!(matches!(
        classify_event(StreamEvent::TransportError("reset".to_owned())),
        EventClass::Failed(Fragment::DecodeError(c)) if c == "reset"
    ));
}

#[test]
fn record_fragments_in_order() {
    let resp = Resp {
        choices: vec![RespChoice {
            finish_reason: Some("stop".to_owned()),
            delta: RespDelta {
                content: Some("c".to_owned()),
                reasoning_content: Some("r".to_owned()),
            },
        }],
        usage: Some(RespUsage { prompt_tokens: 1, completion_tokens: 2, total_tokens: 3 }),
    };
    let frags: Vec<String> = decode_record(resp).iter().map(|f| format!("{f:?}")).collect();
    assert_eq!(frags.len(), 4);
    assert!(frags[0].starts_with("UsageSummary"));
    assert_eq!(frags[1], "FinishSignal(\"stop\")");
    assert_eq!(frags[2], "ReasoningDelta(\"r\")");
    assert_eq!(frags[3], "ContentDelta(\"c\")");
    assert!(decode_record(Resp { choices: vec![], usage: None }).is_empty());
}

#[test]
fn render_state_phases() {
    let mut s = RenderState::new(true);
    assert_eq!(s.phase(), Phase::Initial);
    assert!(s.show_reasoning());
    assert_eq!(s.step(Fragment::ReasoningDelta(String::new())).ok().unwrap(), vec![]);
    assert_eq!(s.phase(), Phase::Initial);
    assert_eq!(s.step(Fragment::FinishSignal("stop".to_owned())).ok().unwrap(), vec![]);
    s.step(Fragment::ReasoningDelta("x".to_owned())).ok().unwrap();
    assert_eq!(s.phase(), Phase::ReasoningActive);
    s.step(Fragment::ContentDelta("y".to_owned())).ok().unwrap();
    assert_eq!(s.phase(), Phase::ContentActive);
    assert_eq!(s.step(Fragment::ReasoningDelta("late".to_owned())).ok().unwrap(), vec![]);
    let e = s.step(Fragment::DecodeError("bad".to_owned()));
    assert_eq!(e, Err(RenderError::Decode("bad".to_owned())));
    assert!(s.is_done());
    assert_eq!(s.step(Fragment::ContentDelta("z".to_owned())).ok().unwrap(), vec![]);
    let mut t = RenderState::new(false);
    t.end_of_stream();
    assert_eq!(t.phase(), Phase::Done);
}

#[test]
fn endpoint_gets_one_trailing_slash() {
    let a = Api::new("https://api.example.com/v1", "SECRET-REDACTED", "m1");
    assert_eq!(a.endpoint(), "https://api.example.com/v1/");
    assert_eq!(a.api_key(), "SECRET-REDACTED");
    assert_eq!(a.model(), "m1");
    let b = Api::new("https://api.example.com/v1/", "k", "m");
    assert_eq!(b.endpoint(), "https://api.example.com/v1/");
    assert_eq!(Api::new("", "k", "m").endpoint(), "/");
}

#[test]
fn prompt_notes_from_options() {
    let mut args = Args { verbose: false, dotenv: None, commit_type: None, commit_scope: None, prompt: None };
    assert_eq!(args.commit_type_note(), "");
    assert_eq!(args.prompt_note(), "");
    args.commit_type = Some("fix".to_owned());
    args.prompt = Some("mention the parser".to_owned());
    assert_eq!(args.commit_type_note(), "According to my demand, the commit type must be 'fix'.\n\n\n");
    assert_eq!(
        args.prompt_note(),
        "Here are some additional message for you to writer a better git commit message:\n\nmention the parser\n\n\n"
    );
}

#[test]
fn request_body_layout() {
    let a = Api::new("https://api.example.com/v1", "k", "gpt-x");
    let body = a.request_body("say \"hi\"\n");
    assert_eq!(
        body,
        "{\"messages\":[{\"role\":\"user\",\"content\":\"say \\\"hi\\\"\\n\"}],\"model\":\"gpt-x\",\"max_tokens\":8192,\"stream\":true,\"stream_options\":{\"include_usage\":true}}"
    );
    let v: serde_json::Value = serde_json::from_str(&body).unwrap();
    assert_eq!(v["messages"][0]["content"].as_str(), Some("say \"hi\"\n"));
    assert_eq!(ai_commit::api::frame_request_body("\"p\"", "\"m\""), "{\"messages\":[{\"role\":\"user\",\"content\":\"p\"}],\"model\":\"m\",\"max_tokens\":8192,\"stream\":true,\"stream_options\":{\"include_usage\":true}}");
}

#[test]
fn ill_typed_records_are_decode_errors() {
    for bad in [
        "[]",
        "{}",
        "{\"choices\":[{\"delta\":{\"content\":5}}]}",
        "{\"choices\":[{}]}",
        "{\"choices\":[],\"usage\":{\"prompt_tokens\":1}}",
    ] {
        let frags = decode_payload(parse_resp(bad));
        assert_eq!(frags.len(), 1, "{bad}");
        assert!(matches!(&frags[0], Fragment::DecodeError(_)), "{bad}");
    }
}
