//! The request builder: first-stage validation, and the exact request that
//! each provider's wire contract asks for.

use vstd::prelude::*;
use crate::credential::Credential;
use crate::error::{GatewayError, GatewayErrorView, STATUS_BAD_REQUEST};
use crate::provider::Provider;
use crate::request::{
    messages_view, ChatMessage, ChatMessageView, ChatRequest, ChatRequestView, ClientRequest,
    ClientRequestView,
    GeminiRequest, GeminiRequestView, GeocodeRequest, GeocodeRequestView, Sampling,
};
use crate::text::{blank, concat2, decimal, decimal_text, percent_encode, percent_encoded};

verus! {

/// The deadline of one upstream call, in seconds.  It is finite: a call never
/// waits without bound.
pub const UPSTREAM_TIMEOUT_SECS: u64 = 30;

/// The HTTP method of an upstream request.
#[derive(Clone, Copy, Debug, PartialEq, Eq, Structural)]
pub enum HttpMethod {
    Get,
    Post,
}

/// One header of an upstream request.
#[derive(Clone, Debug, PartialEq, Eq)]
pub struct Header {
    pub name: String,
    pub value: String,
}

/// The mathematical content of a [`Header`].
pub struct HeaderView {
    pub name: Seq<char>,
    pub value: Seq<char>,
}

impl View for Header {
    type V = HeaderView;

    open spec fn view(&self) -> HeaderView {
        HeaderView { name: self.name@, value: self.value@ }
    }
}

/// The contents of a list of headers.
pub open spec fn headers_view(headers: Seq<Header>) -> Seq<HeaderView> {
    headers.map_values(|h: Header| h@)
}

/// The body sent to the chat provider.  It always names a model; a control
/// that is `None` is left out of the body, never sent with a stand-in value.
#[derive(Clone, Debug, PartialEq, Eq)]
pub struct ChatBody {
    pub model: String,
    pub messages: Vec<ChatMessage>,
    pub max_tokens: Option<u32>,
    pub temperature: Option<Sampling>,
    pub top_p: Option<Sampling>,
    pub stream: Option<bool>,
}

/// The mathematical content of a [`ChatBody`].
pub struct ChatBodyView {
    pub model: Seq<char>,
    pub messages: Seq<ChatMessageView>,
    pub max_tokens: Option<u32>,
    pub temperature: Option<Sampling>,
    pub top_p: Option<Sampling>,
    pub stream: Option<bool>,
}

impl View for ChatBody {
    type V = ChatBodyView;

    open spec fn view(&self) -> ChatBodyView {
        ChatBodyView {
            model: self.model@,
            messages: messages_view(self.messages@),
            max_tokens: self.max_tokens,
            temperature: self.temperature,
            top_p: self.top_p,
            stream: self.stream,
        }
    }
}

/// The body of an upstream request, before it is serialised as JSON.
#[derive(Clone, Debug, PartialEq, Eq)]
pub enum RequestBody {
    /// No body is sent.
    Absent,
    /// The chat provider's body.
    Chat(ChatBody),
    /// The generative provider's body: the client's request as it came.
    Generate(GeminiRequest),
}

/// The mathematical content of a [`RequestBody`].
pub enum RequestBodyView {
    Absent,
    Chat(ChatBodyView),
    Generate(GeminiRequestView),
}

impl View for RequestBody {
    type V = RequestBodyView;

    open spec fn view(&self) -> RequestBodyView {
        match self {
            RequestBody::Absent => RequestBodyView::Absent,
            RequestBody::Chat(b) => RequestBodyView::Chat(b@),
            RequestBody::Generate(b) => RequestBodyView::Generate(b@),
        }
    }
}

/// Everything the invoker needs for one upstream call.
#[derive(Clone, Debug, PartialEq, Eq)]
pub struct UpstreamRequest {
    pub url: String,
    pub method: HttpMethod,
    pub headers: Vec<Header>,
    pub body: RequestBody,
    pub timeout_secs: u64,
}

/// The mathematical content of a [`UpstreamRequest`].
pub struct UpstreamRequestView {
    pub url: Seq<char>,
    pub method: HttpMethod,
    pub headers: Seq<HeaderView>,
    pub body: RequestBodyView,
    pub timeout_secs: u64,
}

impl View for UpstreamRequest {
    type V = UpstreamRequestView;

    open spec fn view(&self) -> UpstreamRequestView {
        UpstreamRequestView {
            url: self.url@,
            method: self.method,
            headers: headers_view(self.headers@),
            body: self.body@,
            timeout_secs: self.timeout_secs,
        }
    }
}

/// The detail of the error for an unusable request.
pub open spec fn invalid_input_message(provider: Provider) -> Seq<char> {
    match provider {
        Provider::ChatCompletion => "The 'messages' array cannot be empty"@,
        Provider::Geocode => "The 'q' parameter (location query) cannot be empty"@,
        Provider::GenerativeAi => "The 'contents' array cannot be empty"@,
    }
}

/// The machine code of the error for an unusable request.
pub open spec fn invalid_input_code(provider: Provider) -> Seq<char> {
    match provider {
        Provider::ChatCompletion => "AI_EMPTY_MESSAGES"@,
        Provider::Geocode => "INVALID_QUERY"@,
        Provider::GenerativeAi => "GEMINI_EMPTY_CONTENTS"@,
    }
}

/// The error for an unusable request: a mistake of the client, so status 400.
pub open spec fn invalid_input_error(provider: Provider) -> GatewayErrorView {
    GatewayErrorView {
        http_status: STATUS_BAD_REQUEST,
        error: "Invalid request"@,
        message: invalid_input_message(provider),
        code: invalid_input_code(provider),
        upstream_status: None,
    }
}

/// Builds the error for an unusable request.
pub fn invalid_input(provider: Provider) -> (e: GatewayError)
    ensures
        e@ == invalid_input_error(provider),
{
    let message = match provider {
        Provider::ChatCompletion => "The 'messages' array cannot be empty",
        Provider::Geocode => "The 'q' parameter (location query) cannot be empty",
        Provider::GenerativeAi => "The 'contents' array cannot be empty",
    };
    let code = match provider {
        Provider::ChatCompletion => "AI_EMPTY_MESSAGES",
        Provider::Geocode => "INVALID_QUERY",
        Provider::GenerativeAi => "GEMINI_EMPTY_CONTENTS",
    };
    GatewayError::local(STATUS_BAD_REQUEST, "Invalid request", String::from_str(message), code)
}

/// What validation answers for a request of `provider`, given whether the
/// request is usable.
pub open spec fn validation(provider: Provider, usable: bool) -> Result<(), GatewayErrorView> {
    if usable {
        Ok(())
    } else {
        Err(invalid_input_error(provider))
    }
}

/// The content of a validation's answer.
pub open spec fn validation_view(checked: Result<(), GatewayError>) -> Result<
    (),
    GatewayErrorView,
> {
    match checked {
        Ok(()) => Ok(()),
        Err(e) => Err(e@),
    }
}

/// Answers for a request of `provider` that was found usable or not.
pub fn accept(provider: Provider, usable: bool) -> (checked: Result<(), GatewayError>)
    ensures
        validation_view(checked) == validation(provider, usable),
{
    if usable {
        Ok(())
    } else {
        Err(invalid_input(provider))
    }
}

/// First-stage validation: accepts exactly the usable requests, and says for
/// every other what the client is to be told.
pub fn validate(request: &ClientRequest) -> (checked: Result<(), GatewayError>)
    ensures
        validation_view(checked) == validation(request@.provider(), request@.is_valid()),
        checked is Ok <==> request@.is_valid(),
        checked matches Err(e) ==> e@ == invalid_input_error(request@.provider()),
{
    let usable = match request {
        ClientRequest::Chat(r) => r.messages.len() > 0,
        ClientRequest::Geocode(r) => !blank(r.q.as_str()),
        ClientRequest::Generate(r) => r.contents.len() > 0,
    };
    accept(request.provider(), usable)
}

/// Where chat completions are posted.
pub open spec fn chat_url() -> Seq<char> {
    "https://api.perplexity.ai/chat/completions"@
}

/// The model asked for where the client names none.
pub open spec fn default_model() -> Seq<char> {
    "llama-3.1-sonar-small-128k-online"@
}

/// Where geocoding queries go; the encoded query follows.
pub open spec fn geocode_endpoint() -> Seq<char> {
    "https://api.opencagedata.com/geocode/v1/json?q="@
}

/// Where generation requests are posted; the key follows.
pub open spec fn generate_endpoint() -> Seq<char> {
    "https://generativelanguage.googleapis.com/v1beta/models/gemini-2.5-flash:generateContent?key="@
}

/// The header that announces a JSON body.
pub open spec fn json_content_type() -> HeaderView {
    HeaderView { name: "Content-Type"@, value: "application/json"@ }
}

/// The header that carries a bearer credential.
pub open spec fn bearer_authorization(credential: Seq<char>) -> HeaderView {
    HeaderView { name: "Authorization"@, value: "Bearer "@ + credential }
}

/// The geocoding URL: the percent-encoded query, then the key as a query
/// parameter, then the result limit and the language where they are given.
pub open spec fn geocode_url(request: GeocodeRequestView, credential: Seq<char>) -> Seq<char> {
    geocode_endpoint() + percent_encoded(request.q) + "&key="@ + credential + (match request.limit {
        Some(limit) => "&limit="@ + decimal(limit as nat),
        None => Seq::empty(),
    }) + (match request.language {
        Some(language) => "&language="@ + language,
        None => Seq::empty(),
    })
}

/// The chat provider's body for a request: the client's model or the default
/// one, the messages, and each control exactly as the client set it.
pub open spec fn chat_body(request: ChatRequestView) -> ChatBodyView {
    ChatBodyView {
        model: match request.model {
            Some(model) => model,
            None => default_model(),
        },
        messages: request.messages,
        max_tokens: request.max_tokens,
        temperature: request.temperature,
        top_p: request.top_p,
        stream: request.stream,
    }
}

/// The upstream request for a client request and its provider's credential.
pub open spec fn upstream_request(
    request: ClientRequestView,
    credential: Seq<char>,
) -> UpstreamRequestView {
    match request {
        ClientRequestView::Chat(r) => UpstreamRequestView {
            url: chat_url(),
            method: HttpMethod::Post,
            headers: seq![bearer_authorization(credential), json_content_type()],
            body: RequestBodyView::Chat(chat_body(r)),
            timeout_secs: UPSTREAM_TIMEOUT_SECS,
        },
        ClientRequestView::Geocode(r) => UpstreamRequestView {
            url: geocode_url(r, credential),
            method: HttpMethod::Get,
            headers: Seq::empty(),
            body: RequestBodyView::Absent,
            timeout_secs: UPSTREAM_TIMEOUT_SECS,
        },
        ClientRequestView::Generate(r) => UpstreamRequestView {
            url: generate_endpoint() + credential,
            method: HttpMethod::Post,
            headers: seq![json_content_type()],
            body: RequestBodyView::Generate(r),
            timeout_secs: UPSTREAM_TIMEOUT_SECS,
        },
    }
}

fn content_type_header() -> (header: Header)
    ensures
        header@ == json_content_type(),
{
    Header { name: String::from_str("Content-Type"), value: String::from_str("application/json") }
}

fn build_chat(request: ChatRequest, credential: &Credential) -> (built: UpstreamRequest)
    ensures
        built@ == upstream_request(ClientRequestView::Chat(request@), credential@),
{
    let ChatRequest { model, messages, max_tokens, temperature, top_p, stream } = request;
    let model = match model {
        Some(model) => model,
        None => String::from_str("llama-3.1-sonar-small-128k-online"),
    };
    let authorization = Header {
        name: String::from_str("Authorization"),
        value: concat2("Bearer ", credential.token()),
    };
    let mut headers: Vec<Header> = Vec::new();
    headers.push(authorization);
    headers.push(content_type_header());
    assert(headers_view(headers@) =~= seq![
        bearer_authorization(credential@),
        json_content_type(),
    ]);
    UpstreamRequest {
        url: String::from_str("https://api.perplexity.ai/chat/completions"),
        method: HttpMethod::Post,
        headers,
        body: RequestBody::Chat(
            ChatBody { model, messages, max_tokens, temperature, top_p, stream },
        ),
        timeout_secs: UPSTREAM_TIMEOUT_SECS,
    }
}

fn build_geocode(request: GeocodeRequest, credential: &Credential) -> (built: UpstreamRequest)
    ensures
        built@ == upstream_request(ClientRequestView::Geocode(request@), credential@),
{
    let encoded = percent_encode(request.q.as_str());
    let mut url = concat2("https://api.opencagedata.com/geocode/v1/json?q=", encoded.as_str());
    url.append("&key=");
    url.append(credential.token());
    match request.limit {
        Some(limit) => {
            url.append("&limit=");
            url.append(decimal_text(limit).as_str());
        },
        None => {},
    }
    match &request.language {
        Some(language) => {
            url.append("&language=");
            url.append(language.as_str());
        },
        None => {},
    }
    assert(url@ =~= geocode_url(request@, credential@));
    let headers: Vec<Header> = Vec::new();
    assert(headers_view(headers@) =~= Seq::<HeaderView>::empty());
    UpstreamRequest {
        url,
        method: HttpMethod::Get,
        headers,
        body: RequestBody::Absent,
        timeout_secs: UPSTREAM_TIMEOUT_SECS,
    }
}

fn build_generate(request: GeminiRequest, credential: &Credential) -> (built: UpstreamRequest)
    ensures
        built@ == upstream_request(ClientRequestView::Generate(request@), credential@),
{
    let url = concat2(
        "https://generativelanguage.googleapis.com/v1beta/models/gemini-2.5-flash:generateContent?key=",
        credential.token(),
    );
    let mut headers: Vec<Header> = Vec::new();
    headers.push(content_type_header());
    assert(headers_view(headers@) =~= seq![json_content_type()]);
    UpstreamRequest {
        url,
        method: HttpMethod::Post,
        headers,
        body: RequestBody::Generate(request),
        timeout_secs: UPSTREAM_TIMEOUT_SECS,
    }
}

/// Builds the upstream request for a usable client request; an unusable one
/// is refused before anything is built.
pub fn build(request: ClientRequest, credential: &Credential) -> (built: Result<
    UpstreamRequest,
    GatewayError,
>)
    ensures
        built is Ok <==> request@.is_valid(),
        built matches Ok(upstream) ==> upstream@ == upstream_request(request@, credential@),
        built matches Err(e) ==> e@ == invalid_input_error(request@.provider()),
{
    match validate(&request) {
        Err(e) => Err(e),
        Ok(()) => Ok(
            match request {
                ClientRequest::Chat(r) => build_chat(r, credential),
                ClientRequest::Geocode(r) => build_geocode(r, credential),
                ClientRequest::Generate(r) => build_generate(r, credential),
            },
        ),
    }
}

} // verus!
