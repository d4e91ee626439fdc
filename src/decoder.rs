//! Decoding of the streamed chat-completion events into response fragments.
use vstd::prelude::*;

verus! {

/// One decoded record of the completion stream.
pub struct Resp {
    pub choices: Vec<RespChoice>,
    pub usage: Option<RespUsage>,
}

pub struct RespChoice {
    pub finish_reason: Option<String>,
    pub delta: RespDelta,
}

pub struct RespDelta {
    pub content: Option<String>,
    pub reasoning_content: Option<String>,
}

#[derive(Clone, Copy, Debug, PartialEq, Eq, Structural)]
pub struct RespUsage {
    pub completion_tokens: u64,
    pub prompt_tokens: u64,
    pub total_tokens: u64,
}

/// One unit of the model's answer, as the renderer consumes it.
#[derive(Debug)]
pub enum Fragment {
    ContentDelta(String),
    ReasoningDelta(String),
    FinishSignal(String),
    UsageSummary(RespUsage),
    DecodeError(String),
}

/// An event of the underlying server-sent-event source.
pub enum StreamEvent {
    Open,
    Message(String),
    TransportError(String),
}

/// What an inbound event amounts to.
#[derive(Debug)]
pub enum EventClass {
    /// Yields nothing.
    Skip,
    /// The sentinel: the stream is over.
    End,
    /// A payload that is to be decoded as a record.
    Payload(String),
    /// A fragment produced without decoding.
    Failed(Fragment),
}

pub open spec fn sentinel() -> Seq<char> {
    "[DONE]"@
}

pub open spec fn classify(ev: StreamEvent) -> EventClass {
    match ev {
        StreamEvent::Open => EventClass::Skip,
        StreamEvent::Message(data) => if data@ == sentinel() {
            EventClass::End
        } else {
            EventClass::Payload(data)
        },
        StreamEvent::TransportError(cause) => EventClass::Failed(Fragment::DecodeError(cause)),
    }
}

pub open spec fn optional_fragment(o: Option<String>, reasoning: bool) -> Seq<Fragment> {
    match o {
        Some(t) => if reasoning {
            seq![Fragment::ReasoningDelta(t)]
        } else {
            seq![Fragment::ContentDelta(t)]
        },
        None => Seq::empty(),
    }
}

/// The fragments of a choice: its finish reason, its reasoning text and its
/// content text, each where present.
pub open spec fn choice_fragments(c: RespChoice) -> Seq<Fragment> {
    let finish = match c.finish_reason {
        Some(r) => seq![Fragment::FinishSignal(r)],
        None => Seq::empty(),
    };
    finish + optional_fragment(c.delta.reasoning_content, true) + optional_fragment(
        c.delta.content,
        false,
    )
}

/// The fragments of a record: the usage first where present, then those of
/// the first choice where there is one.
pub open spec fn fragments_of(resp: Resp) -> Seq<Fragment> {
    let usage = match resp.usage {
        Some(u) => seq![Fragment::UsageSummary(u)],
        None => Seq::empty(),
    };
    if resp.choices@.len() > 0 {
        usage + choice_fragments(resp.choices@[0])
    } else {
        usage
    }
}

/// The fragments for the outcome of decoding one payload.
pub open spec fn payload_fragments(parsed: Result<Resp, String>) -> Seq<Fragment> {
    match parsed {
        Ok(resp) => fragments_of(resp),
        Err(cause) => seq![Fragment::DecodeError(cause)],
    }
}

/// Sorts an inbound event: an open notification yields nothing, the sentinel
/// ends the stream, a transport error is a decode failure.
pub fn classify_event(ev: StreamEvent) -> (r: EventClass)
    ensures
        r == classify(ev),
{
    match ev {
        StreamEvent::Open => EventClass::Skip,
        StreamEvent::Message(data) => {
            let done = "[DONE]".to_owned();
            if data == done {
                EventClass::End
            } else {
                EventClass::Payload(data)
            }
        },
        StreamEvent::TransportError(cause) => EventClass::Failed(Fragment::DecodeError(cause)),
    }
}

fn push_optional(out: &mut Vec<Fragment>, o: Option<String>, reasoning: bool)
    ensures
        final(out)@ == old(out)@ + optional_fragment(o, reasoning),
{
    match o {
        Some(t) => {
            if reasoning {
                out.push(Fragment::ReasoningDelta(t));
            } else {
                out.push(Fragment::ContentDelta(t));
            }
        },
        None => {},
    }
    assert(final(out)@ =~= old(out)@ + optional_fragment(o, reasoning));
}

/// Splits a record into its fragments (see `fragments_of`).
pub fn decode_record(resp: Resp) -> (r: Vec<Fragment>)
    ensures
        r@ == fragments_of(resp),
{
    let ghost whole = resp;
    let Resp { mut choices, usage } = resp;
    let mut out: Vec<Fragment> = Vec::new();
    match usage {
        Some(u) => out.push(Fragment::UsageSummary(u)),
        None => {},
    }
    assert(out@ =~= match whole.usage {
        Some(u) => seq![Fragment::UsageSummary(u)],
        None => Seq::<Fragment>::empty(),
    });
    if choices.len() > 0 {
        let c = choices.remove(0);
        let ghost before = out@;
        let RespChoice { finish_reason, delta } = c;
        match finish_reason {
            Some(r) => out.push(Fragment::FinishSignal(r)),
            None => {},
        }
        let RespDelta { content, reasoning_content } = delta;
        push_optional(&mut out, reasoning_content, true);
        push_optional(&mut out, content, false);
        assert(out@ =~= before + choice_fragments(c));
    }
    out
}

/// The fragments for the outcome of decoding one payload: those of the
/// record, or a single decode error carrying the cause.
pub fn decode_payload(parsed: Result<Resp, String>) -> (r: Vec<Fragment>)
    ensures
        r@ == payload_fragments(parsed),
{
    match parsed {
        Ok(resp) => decode_record(resp),
        Err(cause) => {
            let mut out: Vec<Fragment> = Vec::new();
            out.push(Fragment::DecodeError(cause));
            out
        },
    }
}

} // verus!
