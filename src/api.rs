//! Connection settings of the completion endpoint.
use vstd::prelude::*;
use vstd::string::StringExecFns;

verus! {

#[verifier::external_type_specification]
#[verifier::external_body]
pub struct ExJsonError(serde_json::Error);

/// The JSON string literal that `serde_json` writes for a text.
pub uninterp spec fn json_string(s: Seq<char>) -> Seq<char>;

/// Relies on `serde_json::to_string` on a `str`: the text written as one
/// quoted and escaped JSON string, which depends on the text alone. A `str`
/// serializes through `serialize_str` into a `Vec<u8>`, which cannot fail.
#[verifier::external_body]
fn quote_json(s: &str) -> (r: Result<String, serde_json::Error>)
    ensures
        r is Ok,
        r->Ok_0@ == json_string(s@),
{
    serde_json::to_string(s)
}

/// The streaming chat-completion request for one user message, with the
/// prompt and the model given as JSON string literals.
pub open spec fn body_text(quoted_prompt: Seq<char>, quoted_model: Seq<char>) -> Seq<char> {
    "{\"messages\":[{\"role\":\"user\",\"content\":"@ + quoted_prompt + "}],\"model\":"@
        + quoted_model
        + ",\"max_tokens\":8192,\"stream\":true,\"stream_options\":{\"include_usage\":true}}"@
}

/// Lays out the request body around the already quoted prompt and model.
pub fn frame_request_body(quoted_prompt: &str, quoted_model: &str) -> (r: String)
    ensures
        r@ == body_text(quoted_prompt@, quoted_model@),
{
    let mut b = "{\"messages\":[{\"role\":\"user\",\"content\":".to_owned();
    b.append(quoted_prompt);
    b.append("}],\"model\":");
    b.append(quoted_model);
    b.append(",\"max_tokens\":8192,\"stream\":true,\"stream_options\":{\"include_usage\":true}}");
    b
}

/// The endpoint as it is stored: with exactly one added `'/'` where it did
/// not already end in one.
pub open spec fn normalized_endpoint(e: Seq<char>) -> Seq<char> {
    if e.len() > 0 && e.last() == '/' {
        e
    } else {
        e.push('/')
    }
}

/// Where and as whom the completion requests are sent.
pub struct Api {
    endpoint: String,
    api_key: String,
    model: String,
}

impl Api {
    pub closed spec fn endpoint_spec(&self) -> Seq<char> {
        self.endpoint@
    }

    pub closed spec fn api_key_spec(&self) -> Seq<char> {
        self.api_key@
    }

    pub closed spec fn model_spec(&self) -> Seq<char> {
        self.model@
    }

    pub fn new(endpoint: &str, api_key: &str, model: &str) -> (r: Api)
        ensures
            r.endpoint_spec() == normalized_endpoint(endpoint@),
            r.api_key_spec() == api_key@,
            r.model_spec() == model@,
    {
        let mut e = endpoint.to_owned();
        let n = endpoint.unicode_len();
        if n == 0 || endpoint.get_char(n - 1) != '/' {
            proof {
                reveal_strlit("/");
            }
            e.append("/");
            assert(e@ =~= endpoint@.push('/'));
        }
        Api { endpoint: e, api_key: api_key.to_owned(), model: model.to_owned() }
    }

    /// The JSON body of the completion request for `prompt`.
    pub fn request_body(&self, prompt: &str) -> (r: String)
        ensures
            r@ == body_text(json_string(prompt@), json_string(self.model_spec())),
    {
        let qp = match quote_json(prompt) {
            Ok(q) => q,
            Err(_) => {
                assert(false);
                String::new()
            },
        };
        let qm = match quote_json(self.model.as_str()) {
            Ok(q) => q,
            Err(_) => {
                assert(false);
                String::new()
            },
        };
        frame_request_body(qp.as_str(), qm.as_str())
    }

    pub fn endpoint(&self) -> (r: &str)
        ensures
            r@ == self.endpoint_spec(),
    {
        self.endpoint.as_str()
    }

    pub fn api_key(&self) -> (r: &str)
        ensures
            r@ == self.api_key_spec(),
    {
        self.api_key.as_str()
    }

    pub fn model(&self) -> (r: &str)
        ensures
            r@ == self.model_spec(),
    {
        self.model.as_str()
    }
}

} // verus!
