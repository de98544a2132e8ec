//! What clients ask of the gateway, one shape per provider.

use vstd::prelude::*;
use crate::provider::Provider;
use crate::text::is_blank;

verus! {

/// A sampling control, held as the bit pattern of an IEEE-754 single-precision
/// number.  The gateway forwards it and never computes with it.
#[derive(Clone, Copy, Debug, PartialEq, Eq, Structural)]
pub struct Sampling {
    pub bits: u32,
}

/// One message of a chat.
#[derive(Clone, Debug, PartialEq, Eq)]
pub struct ChatMessage {
    pub role: String,
    pub content: String,
}

/// The mathematical content of a [`ChatMessage`].
pub struct ChatMessageView {
    pub role: Seq<char>,
    pub content: Seq<char>,
}

impl View for ChatMessage {
    type V = ChatMessageView;

    open spec fn view(&self) -> ChatMessageView {
        ChatMessageView { role: self.role@, content: self.content@ }
    }
}

/// A chat-completion request: the messages in order, and the controls the
/// client chose to set.
#[derive(Clone, Debug, PartialEq, Eq)]
pub struct ChatRequest {
    pub model: Option<String>,
    pub messages: Vec<ChatMessage>,
    pub max_tokens: Option<u32>,
    pub temperature: Option<Sampling>,
    pub top_p: Option<Sampling>,
    pub stream: Option<bool>,
}

/// The mathematical content of a [`ChatRequest`].
pub struct ChatRequestView {
    pub model: Option<Seq<char>>,
    pub messages: Seq<ChatMessageView>,
    pub max_tokens: Option<u32>,
    pub temperature: Option<Sampling>,
    pub top_p: Option<Sampling>,
    pub stream: Option<bool>,
}

/// The content of an optional text.
pub open spec fn optional_text(text: Option<String>) -> Option<Seq<char>> {
    match text {
        Some(t) => Some(t@),
        None => None,
    }
}

/// The contents of a list of messages.
pub open spec fn messages_view(messages: Seq<ChatMessage>) -> Seq<ChatMessageView> {
    messages.map_values(|m: ChatMessage| m@)
}

impl View for ChatRequest {
    type V = ChatRequestView;

    open spec fn view(&self) -> ChatRequestView {
        ChatRequestView {
            model: optional_text(self.model),
            messages: messages_view(self.messages@),
            max_tokens: self.max_tokens,
            temperature: self.temperature,
            top_p: self.top_p,
            stream: self.stream,
        }
    }
}

/// A geocoding request: the free-text query, and optionally how many results
/// are wanted and in which language.
#[derive(Clone, Debug, PartialEq, Eq)]
pub struct GeocodeRequest {
    pub q: String,
    pub limit: Option<u32>,
    pub language: Option<String>,
}

/// The mathematical content of a [`GeocodeRequest`].
pub struct GeocodeRequestView {
    pub q: Seq<char>,
    pub limit: Option<u32>,
    pub language: Option<Seq<char>>,
}

impl View for GeocodeRequest {
    type V = GeocodeRequestView;

    open spec fn view(&self) -> GeocodeRequestView {
        GeocodeRequestView {
            q: self.q@,
            limit: self.limit,
            language: optional_text(self.language),
        }
    }
}

/// One part of a content block.
#[derive(Clone, Debug, PartialEq, Eq)]
pub struct GeminiPart {
    pub text: String,
}

/// One content block of a generation request.
#[derive(Clone, Debug, PartialEq, Eq)]
pub struct GeminiContent {
    pub role: String,
    pub parts: Vec<GeminiPart>,
}

/// The mathematical content of a [`GeminiContent`].
pub struct GeminiContentView {
    pub role: Seq<char>,
    pub parts: Seq<Seq<char>>,
}

impl View for GeminiContent {
    type V = GeminiContentView;

    open spec fn view(&self) -> GeminiContentView {
        GeminiContentView {
            role: self.role@,
            parts: self.parts@.map_values(|p: GeminiPart| p.text@),
        }
    }
}

/// The generation parameters a client may set.
#[derive(Clone, Debug, PartialEq, Eq)]
pub struct GeminiGenerationConfig {
    pub temperature: Option<Sampling>,
    pub max_output_tokens: Option<u32>,
    pub response_mime_type: Option<String>,
}

/// The mathematical content of a [`GeminiGenerationConfig`].
pub struct GeminiGenerationConfigView {
    pub temperature: Option<Sampling>,
    pub max_output_tokens: Option<u32>,
    pub response_mime_type: Option<Seq<char>>,
}

impl View for GeminiGenerationConfig {
    type V = GeminiGenerationConfigView;

    open spec fn view(&self) -> GeminiGenerationConfigView {
        GeminiGenerationConfigView {
            temperature: self.temperature,
            max_output_tokens: self.max_output_tokens,
            response_mime_type: optional_text(self.response_mime_type),
        }
    }
}

/// A generation request: the content blocks in order, and optional parameters.
#[derive(Clone, Debug, PartialEq, Eq)]
pub struct GeminiRequest {
    pub contents: Vec<GeminiContent>,
    pub generation_config: Option<GeminiGenerationConfig>,
}

/// The mathematical content of a [`GeminiRequest`].
pub struct GeminiRequestView {
    pub contents: Seq<GeminiContentView>,
    pub generation_config: Option<GeminiGenerationConfigView>,
}

impl View for GeminiRequest {
    type V = GeminiRequestView;

    open spec fn view(&self) -> GeminiRequestView {
        GeminiRequestView {
            contents: self.contents@.map_values(|c: GeminiContent| c@),
            generation_config: match self.generation_config {
                Some(config) => Some(config@),
                None => None,
            },
        }
    }
}

/// The maps configuration is asked for without parameters.
#[derive(Clone, Copy, Debug, PartialEq, Eq, Structural)]
pub struct MapsConfigRequest {}

/// A request for one of the providers.
#[derive(Clone, Debug, PartialEq, Eq)]
pub enum ClientRequest {
    Chat(ChatRequest),
    Geocode(GeocodeRequest),
    Generate(GeminiRequest),
}

/// The mathematical content of a [`ClientRequest`].
pub enum ClientRequestView {
    Chat(ChatRequestView),
    Geocode(GeocodeRequestView),
    Generate(GeminiRequestView),
}

impl View for ClientRequest {
    type V = ClientRequestView;

    open spec fn view(&self) -> ClientRequestView {
        match self {
            ClientRequest::Chat(r) => ClientRequestView::Chat(r@),
            ClientRequest::Geocode(r) => ClientRequestView::Geocode(r@),
            ClientRequest::Generate(r) => ClientRequestView::Generate(r@),
        }
    }
}

impl ClientRequestView {
    /// The provider that the request is for.
    pub open spec fn provider(self) -> Provider {
        match self {
            ClientRequestView::Chat(_) => Provider::ChatCompletion,
            ClientRequestView::Geocode(_) => Provider::Geocode,
            ClientRequestView::Generate(_) => Provider::GenerativeAi,
        }
    }

    /// The invariant of a usable request: a chat has a message, a generation
    /// has a content block, a geocoding query is not blank.
    pub open spec fn is_valid(self) -> bool {
        match self {
            ClientRequestView::Chat(r) => r.messages.len() > 0,
            ClientRequestView::Geocode(r) => !is_blank(r.q),
            ClientRequestView::Generate(r) => r.contents.len() > 0,
        }
    }
}

impl ClientRequest {
    /// The provider that the request is for.
    pub fn provider(&self) -> (provider: Provider)
        ensures
            provider == self@.provider(),
    {
        match self {
            ClientRequest::Chat(_) => Provider::ChatCompletion,
            ClientRequest::Geocode(_) => Provider::Geocode,
            ClientRequest::Generate(_) => Provider::GenerativeAi,
        }
    }
}

} // verus!
