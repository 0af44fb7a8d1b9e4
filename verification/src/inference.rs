//! The inference exchange: what is sent to the server, and what each answer
//! of the transport and of the decoder means for the caller.

use vstd::prelude::*;
use vstd::string::*;
use crate::config::Configuration;
use crate::text::{decimal, decimal_text, texts};

verus! {

/// The part of an exchange in which the transport failed.
#[derive(Clone, Copy, Debug, PartialEq, Eq, Structural)]
pub enum TransportPhase {
    /// No answer arrived: connection refused, name not resolved, timeout.
    Sending,
    /// An answer began to arrive and its body could not be read to the end.
    Reading,
}

/// Why an exchange with the inference server failed.
#[derive(Clone, Debug, PartialEq, Eq)]
pub enum InferenceError {
    /// The transport failed; `message` is its own account.
    Transport { phase: TransportPhase, message: String },
    /// The server answered with a status outside 200..=299.
    HttpStatus { status: u16 },
    /// The body was not the expected envelope; `raw_body` is the body as it
    /// was received.
    Decode { parse_error: String, raw_body: String },
}

/// An [`InferenceError`] over sequences of characters.
pub enum InferenceErrorView {
    Transport { phase: TransportPhase, message: Seq<char> },
    HttpStatus { status: u16 },
    Decode { parse_error: Seq<char>, raw_body: Seq<char> },
}

impl View for InferenceError {
    type V = InferenceErrorView;

    open spec fn view(&self) -> InferenceErrorView {
        match self {
            InferenceError::Transport { phase, message } => InferenceErrorView::Transport {
                phase: *phase,
                message: message@,
            },
            InferenceError::HttpStatus { status } => InferenceErrorView::HttpStatus {
                status: *status,
            },
            InferenceError::Decode { parse_error, raw_body } => InferenceErrorView::Decode {
                parse_error: parse_error@,
                raw_body: raw_body@,
            },
        }
    }
}

/// One request for an enhancement, as it goes into the body of the post.
#[derive(Clone, Debug, PartialEq, Eq)]
pub struct EnhancementRequest {
    pub model: String,
    pub rendered_prompt: String,
    pub stream: bool,
}

/// An [`EnhancementRequest`] over sequences of characters.
pub struct EnhancementRequestView {
    pub model: Seq<char>,
    pub rendered_prompt: Seq<char>,
    pub stream: bool,
}

impl View for EnhancementRequest {
    type V = EnhancementRequestView;

    open spec fn view(&self) -> EnhancementRequestView {
        EnhancementRequestView {
            model: self.model@,
            rendered_prompt: self.rendered_prompt@,
            stream: self.stream,
        }
    }
}

/// What is read of a decoded generation envelope: the rewritten text.
#[derive(Clone, Debug, PartialEq, Eq)]
pub struct GenerateReply {
    pub response: String,
}

/// What is read of one entry of a decoded model listing.
#[derive(Clone, Debug, PartialEq, Eq)]
pub struct ModelEntry {
    pub name: String,
}

/// Why no initial model could be selected.
#[derive(Clone, Copy, Debug, PartialEq, Eq, Structural)]
pub enum ModelSelectionError {
    /// The listing itself failed.
    ListingFailed,
    /// The server lists no model.
    NoModelsAvailable,
}

/// The delimiter between the instruction template and the user's text.
pub open spec fn prompt_delimiter() -> Seq<char> {
    "\n\nUser input: "@
}

/// The prompt that is sent for `raw_text` under `template`: the template,
/// the delimiter, then the text as it is, to the last character.
pub open spec fn rendered_prompt(template: Seq<char>, raw_text: Seq<char>) -> Seq<char> {
    template + prompt_delimiter() + raw_text
}

/// Renders the full prompt for `raw_text`.
pub fn render_prompt(template: &str, raw_text: &str) -> (prompt: String)
    ensures
        prompt@ == rendered_prompt(template@, raw_text@),
{
    let mut prompt = template.to_owned();
    prompt.append("\n\nUser input: ");
    prompt.append(raw_text);
    prompt
}

/// The request that asks `model` to rewrite `raw_text` under `template`:
/// the whole answer is wanted at once, so streaming is off.
pub open spec fn request_for(
    raw_text: Seq<char>,
    model: Seq<char>,
    template: Seq<char>,
) -> EnhancementRequestView {
    EnhancementRequestView {
        model,
        rendered_prompt: rendered_prompt(template, raw_text),
        stream: false,
    }
}

/// Builds the request that asks `model` to rewrite `raw_text` under
/// `template`.
pub fn build_request(raw_text: &str, model: &str, template: &str) -> (request: EnhancementRequest)
    ensures
        request@ == request_for(raw_text@, model@, template@),
{
    EnhancementRequest {
        model: model.to_owned(),
        rendered_prompt: render_prompt(template, raw_text),
        stream: false,
    }
}

/// The address that generation requests are posted to.
pub open spec fn generate_address(endpoint: Seq<char>) -> Seq<char> {
    endpoint + "/api/generate"@
}

/// The address that lists the server's models.
pub open spec fn tags_address(endpoint: Seq<char>) -> Seq<char> {
    endpoint + "/api/tags"@
}

/// The address to post a generation request to.
pub fn generate_url(endpoint: &str) -> (url: String)
    ensures
        url@ == generate_address(endpoint@),
{
    let mut url = endpoint.to_owned();
    url.append("/api/generate");
    url
}

/// The address to get the model listing from.
pub fn tags_url(endpoint: &str) -> (url: String)
    ensures
        url@ == tags_address(endpoint@),
{
    let mut url = endpoint.to_owned();
    url.append("/api/tags");
    url
}

/// The model that a request from the control surface runs on: the one it
/// names, else the configured one.
pub open spec fn resolved_model(requested: Option<Seq<char>>, configured: Seq<char>) -> Option<
    Seq<char>,
> {
    match requested {
        Some(name) => Some(name),
        None => if configured.len() > 0 {
            Some(configured)
        } else {
            None
        },
    }
}

/// Picks the model for a request. `None` means that the request names no
/// model and none is configured: the request must fail, no model is made up.
pub fn resolve_model(requested: Option<String>, config: &Configuration) -> (model: Option<String>)
    ensures
        match resolved_model(
            match requested {
                Some(name) => Some(name@),
                None => None,
            },
            config@.active_model,
        ) {
            Some(name) => model matches Some(m) && m@ == name,
            None => model is None,
        },
{
    match requested {
        Some(name) => Some(name),
        None => if config.has_model() {
            Some(config.get_model())
        } else {
            None
        },
    }
}

/// Whether a status code reports success.
pub open spec fn is_success(status: u16) -> bool {
    200 <= status <= 299
}

/// Judges the status line of an answer: a status outside 200..=299 ends the
/// exchange with that status.
pub fn accept_status(status: u16) -> (verdict: Result<(), InferenceError>)
    ensures
        is_success(status) ==> verdict is Ok,
        !is_success(status) ==> (verdict matches Err(e) && e@ == (InferenceErrorView::HttpStatus {
            status,
        })),
{
    if 200 <= status && status <= 299 {
        Ok(())
    } else {
        Err(InferenceError::HttpStatus { status })
    }
}

/// Concludes a generation exchange from its body and from what the decoder
/// made of it. A decoded envelope gives its `response` as it came, character
/// for character; a decoder's complaint is passed on with the body.
pub fn decode_generate(raw_body: String, decoded: Result<GenerateReply, String>) -> (result: Result<
    String,
    InferenceError,
>)
    ensures
        match decoded {
            Ok(reply) => result matches Ok(text) && text@ == reply.response@,
            Err(complaint) => result matches Err(e) && e@ == (InferenceErrorView::Decode {
                parse_error: complaint@,
                raw_body: raw_body@,
            }),
        },
{
    match decoded {
        Ok(reply) => Ok(reply.response),
        Err(complaint) => Err(InferenceError::Decode { parse_error: complaint, raw_body }),
    }
}

/// The names of a listing's entries, in the listing's order.
pub open spec fn entry_names(entries: Seq<ModelEntry>) -> Seq<Seq<char>> {
    Seq::new(entries.len(), |i: int| entries[i].name@)
}

/// Concludes a listing exchange: the names of the decoded entries in the
/// server's order, or the decoder's complaint with the body.
pub fn decode_models(raw_body: String, decoded: Result<Vec<ModelEntry>, String>) -> (result: Result<
    Vec<String>,
    InferenceError,
>)
    ensures
        match decoded {
            Ok(entries) => result matches Ok(names) && texts(names@) == entry_names(entries@),
            Err(complaint) => result matches Err(e) && e@ == (InferenceErrorView::Decode {
                parse_error: complaint@,
                raw_body: raw_body@,
            }),
        },
{
    match decoded {
        Ok(entries) => {
            let mut names: Vec<String> = Vec::new();
            let mut i: usize = 0;
            while i < entries.len()
                invariant
                    i <= entries.len(),
                    names.len() == i,
                    forall|j: int| 0 <= j < i ==> names[j]@ == entries[j].name@,
                decreases entries.len() - i,
            {
                names.push(entries[i].name.clone());
                i += 1;
            }
            assert(texts(names@) =~= entry_names(entries@));
            Ok(names)
        },
        Err(complaint) => Err(InferenceError::Decode { parse_error: complaint, raw_body }),
    }
}

/// The error for a transport that failed in `phase` with `complaint`: while
/// sending, where no answer arrived (connection refused, name not resolved,
/// timeout), or while reading an answer's body.
pub fn transport_failure(phase: TransportPhase, complaint: String) -> (e: InferenceError)
    ensures
        e@ == (InferenceErrorView::Transport { phase, message: complaint@ }),
{
    InferenceError::Transport { phase, message: complaint }
}

/// The result of a generation exchange that was answered with `status` and
/// `raw_body`, of which the decoder made `decoded`.
pub open spec fn generation_result(
    status: u16,
    raw_body: Seq<char>,
    decoded: Result<Seq<char>, Seq<char>>,
) -> Result<Seq<char>, InferenceErrorView> {
    if !is_success(status) {
        Err(InferenceErrorView::HttpStatus { status })
    } else {
        match decoded {
            Ok(response) => Ok(response),
            Err(complaint) => Err(
                InferenceErrorView::Decode { parse_error: complaint, raw_body },
            ),
        }
    }
}

/// Concludes a generation exchange from the status, the body and what the
/// decoder made of the body.
pub fn conclude_generation(
    status: u16,
    raw_body: String,
    decoded: Result<GenerateReply, String>,
) -> (result: Result<String, InferenceError>)
    ensures
        match generation_result(
            status,
            raw_body@,
            match decoded {
                Ok(reply) => Ok(reply.response@),
                Err(complaint) => Err(complaint@),
            },
        ) {
            Ok(response) => result matches Ok(text) && text@ == response,
            Err(error) => result matches Err(e) && e@ == error,
        },
{
    match accept_status(status) {
        Ok(_) => decode_generate(raw_body, decoded),
        Err(e) => Err(e),
    }
}

/// The result of a listing exchange that was answered with `status` and
/// `raw_body`, of which the decoder made `decoded`.
pub open spec fn listing_result(
    status: u16,
    raw_body: Seq<char>,
    decoded: Result<Seq<Seq<char>>, Seq<char>>,
) -> Result<Seq<Seq<char>>, InferenceErrorView> {
    if !is_success(status) {
        Err(InferenceErrorView::HttpStatus { status })
    } else {
        match decoded {
            Ok(names) => Ok(names),
            Err(complaint) => Err(
                InferenceErrorView::Decode { parse_error: complaint, raw_body },
            ),
        }
    }
}

/// Concludes a listing exchange from the status, the body and what the
/// decoder made of the body: a status outside 200..=299 is reported with
/// the status; else the names come in the server's order.
pub fn conclude_listing(
    status: u16,
    raw_body: String,
    decoded: Result<Vec<ModelEntry>, String>,
) -> (result: Result<Vec<String>, InferenceError>)
    ensures
        match listing_result(
            status,
            raw_body@,
            match decoded {
                Ok(entries) => Ok(entry_names(entries@)),
                Err(complaint) => Err(complaint@),
            },
        ) {
            Ok(expected) => result matches Ok(names) && texts(names@) == expected,
            Err(error) => result matches Err(e) && e@ == error,
        },
{
    match accept_status(status) {
        Ok(_) => decode_models(raw_body, decoded),
        Err(e) => Err(e),
    }
}

/// Concludes a liveness probe from what the transport reported: the status of
/// an answer, or its own failure. Any answer, whatever its status, shows that
/// the server is there.
pub fn check_reachable(sent: Result<u16, String>) -> (result: Result<(), InferenceError>)
    ensures
        match sent {
            Ok(_) => result is Ok,
            Err(complaint) => result matches Err(e) && e@ == (InferenceErrorView::Transport {
                phase: TransportPhase::Sending,
                message: complaint@,
            }),
        },
{
    match sent {
        Ok(_) => Ok(()),
        Err(complaint) => Err(transport_failure(TransportPhase::Sending, complaint)),
    }
}

/// Selects the first listed model as the active one. Where the listing
/// failed or is empty, the configuration stays as it was.
pub fn set_initial_model(config: &mut Configuration, listing: Result<Vec<String>, InferenceError>) -> (result:
    Result<String, ModelSelectionError>)
    ensures
        match listing {
            Ok(names) => if names.len() > 0 {
                &&& result matches Ok(chosen) && chosen@ == names[0]@
                &&& final(config)@ == old(config)@.with_model(names[0]@)
            } else {
                &&& result == Err::<String, ModelSelectionError>(
                    ModelSelectionError::NoModelsAvailable,
                )
                &&& final(config)@ == old(config)@
            },
            Err(_) => {
                &&& result == Err::<String, ModelSelectionError>(ModelSelectionError::ListingFailed)
                &&& final(config)@ == old(config)@
            },
        },
{
    match listing {
        Ok(names) => {
            if names.len() == 0 {
                Err(ModelSelectionError::NoModelsAvailable)
            } else {
                let chosen = names[0].clone();
                config.set_model(chosen.clone());
                Ok(chosen)
            }
        },
        Err(_) => Err(ModelSelectionError::ListingFailed),
    }
}

/// The account of an error that is shown to the user.
pub open spec fn error_text(error: InferenceErrorView) -> Seq<char> {
    match error {
        InferenceErrorView::Transport { phase: TransportPhase::Sending, message } => {
            "Failed to send request: "@ + message
        },
        InferenceErrorView::Transport { phase: TransportPhase::Reading, message } => {
            "Failed to read response: "@ + message
        },
        InferenceErrorView::HttpStatus { status } => "Ollama API error: "@ + decimal(status as nat),
        InferenceErrorView::Decode { parse_error, raw_body } => "Failed to parse response: "@
            + parse_error + " (response: "@ + raw_body + ")"@,
    }
}

impl InferenceError {
    /// A short account of the error for the user.
    pub fn message(&self) -> (text: String)
        ensures
            text@ == error_text(self@),
    {
        match self {
            InferenceError::Transport { phase, message } => {
                let mut text = match phase {
                    TransportPhase::Sending => "Failed to send request: ".to_owned(),
                    TransportPhase::Reading => "Failed to read response: ".to_owned(),
                };
                text.append(message.as_str());
                text
            },
            InferenceError::HttpStatus { status } => {
                let mut text = "Ollama API error: ".to_owned();
                let code = decimal_text(*status);
                text.append(code.as_str());
                text
            },
            InferenceError::Decode { parse_error, raw_body } => {
                let mut text = "Failed to parse response: ".to_owned();
                text.append(parse_error.as_str());
                text.append(" (response: ");
                text.append(raw_body.as_str());
                text.append(")");
                text
            },
        }
    }
}

/// What a failed selection says to the user.
pub open spec fn selection_error_text(error: ModelSelectionError) -> Seq<char> {
    match error {
        ModelSelectionError::ListingFailed => "Failed to get available models"@,
        ModelSelectionError::NoModelsAvailable => "No models available"@,
    }
}

impl ModelSelectionError {
    /// A short account of the error for the user.
    pub fn message(&self) -> (text: String)
        ensures
            text@ == selection_error_text(*self),
    {
        match self {
            ModelSelectionError::ListingFailed => "Failed to get available models".to_owned(),
            ModelSelectionError::NoModelsAvailable => "No models available".to_owned(),
        }
    }
}

} // verus!
