//! The JSON objects whose members depend on the value they are made from:
//! the body of a failed reply, and the body sent to the chat provider.  Each
//! is given as the list of its members in order; writing the list out as
//! JSON text is the caller's.

use vstd::prelude::*;
use crate::builder::{ChatBody, ChatBodyView};
use crate::error::{GatewayError, GatewayErrorView};
use crate::request::{messages_view, ChatMessage, ChatMessageView, Sampling};

verus! {

/// The value of one member.
#[derive(Clone, Debug, PartialEq, Eq)]
pub enum FieldValue {
    Text(String),
    Unsigned(u32),
    Flag(bool),
    Sampling(Sampling),
    Messages(Vec<ChatMessage>),
}

/// The mathematical content of a [`FieldValue`].
pub enum FieldValueView {
    Text(Seq<char>),
    Unsigned(u32),
    Flag(bool),
    Sampling(Sampling),
    Messages(Seq<ChatMessageView>),
}

impl View for FieldValue {
    type V = FieldValueView;

    open spec fn view(&self) -> FieldValueView {
        match self {
            FieldValue::Text(t) => FieldValueView::Text(t@),
            FieldValue::Unsigned(n) => FieldValueView::Unsigned(*n),
            FieldValue::Flag(b) => FieldValueView::Flag(*b),
            FieldValue::Sampling(s) => FieldValueView::Sampling(*s),
            FieldValue::Messages(m) => FieldValueView::Messages(messages_view(m@)),
        }
    }
}

/// One member of an object: its name and its value.
#[derive(Clone, Debug, PartialEq, Eq)]
pub struct BodyField {
    pub name: String,
    pub value: FieldValue,
}

/// The mathematical content of a [`BodyField`].
pub struct BodyFieldView {
    pub name: Seq<char>,
    pub value: FieldValueView,
}

impl View for BodyField {
    type V = BodyFieldView;

    open spec fn view(&self) -> BodyFieldView {
        BodyFieldView { name: self.name@, value: self.value@ }
    }
}

/// The contents of a list of members.
pub open spec fn fields_view(fields: Seq<BodyField>) -> Seq<BodyFieldView> {
    fields.map_values(|f: BodyField| f@)
}

/// A member that is present only where it has a value.
pub open spec fn optional_field(name: Seq<char>, value: Option<FieldValueView>) -> Seq<
    BodyFieldView,
> {
    match value {
        Some(value) => seq![BodyFieldView { name, value }],
        None => Seq::empty(),
    }
}

/// The members of a failed reply's body: `error`, `message` and `code`
/// always, `status` exactly where the provider answered.
pub open spec fn error_fields(e: GatewayErrorView) -> Seq<BodyFieldView> {
    seq![
        BodyFieldView { name: "error"@, value: FieldValueView::Text(e.error) },
        BodyFieldView { name: "message"@, value: FieldValueView::Text(e.message) },
        BodyFieldView { name: "code"@, value: FieldValueView::Text(e.code) },
    ] + optional_field(
        "status"@,
        match e.upstream_status {
            Some(status) => Some(FieldValueView::Unsigned(status as u32)),
            None => None,
        },
    )
}

/// The members of the chat provider's body: `model` and `messages` always,
/// each control exactly where the client set it.
pub open spec fn chat_fields(body: ChatBodyView) -> Seq<BodyFieldView> {
    seq![
        BodyFieldView { name: "model"@, value: FieldValueView::Text(body.model) },
        BodyFieldView { name: "messages"@, value: FieldValueView::Messages(body.messages) },
    ] + optional_field(
        "max_tokens"@,
        match body.max_tokens {
            Some(n) => Some(FieldValueView::Unsigned(n)),
            None => None,
        },
    ) + optional_field(
        "temperature"@,
        match body.temperature {
            Some(s) => Some(FieldValueView::Sampling(s)),
            None => None,
        },
    ) + optional_field(
        "top_p"@,
        match body.top_p {
            Some(s) => Some(FieldValueView::Sampling(s)),
            None => None,
        },
    ) + optional_field(
        "stream"@,
        match body.stream {
            Some(b) => Some(FieldValueView::Flag(b)),
            None => None,
        },
    )
}

fn field(name: &str, value: FieldValue) -> (f: BodyField)
    ensures
        f@ == (BodyFieldView { name: name@, value: value@ }),
{
    BodyField { name: String::from_str(name), value }
}

impl GatewayError {
    /// Lists the members of the reply's body.
    pub fn body(&self) -> (fields: Vec<BodyField>)
        ensures
            fields_view(fields@) == error_fields(self@),
    {
        let mut fields: Vec<BodyField> = Vec::new();
        fields.push(field("error", FieldValue::Text(self.error.clone())));
        fields.push(field("message", FieldValue::Text(self.message.clone())));
        fields.push(field("code", FieldValue::Text(self.code.clone())));
        match self.upstream_status {
            Some(status) => {
                fields.push(field("status", FieldValue::Unsigned(status as u32)));
            },
            None => {},
        }
        assert(fields_view(fields@) =~= error_fields(self@));
        fields
    }
}

impl ChatBody {
    /// Lists the members of the body.
    pub fn into_fields(self) -> (fields: Vec<BodyField>)
        ensures
            fields_view(fields@) == chat_fields(self@),
    {
        let ChatBody { model, messages, max_tokens, temperature, top_p, stream } = self;
        let mut fields: Vec<BodyField> = Vec::new();
        fields.push(field("model", FieldValue::Text(model)));
        fields.push(field("messages", FieldValue::Messages(messages)));
        match max_tokens {
            Some(n) => {
                fields.push(field("max_tokens", FieldValue::Unsigned(n)));
            },
            None => {},
        }
        match temperature {
            Some(s) => {
                fields.push(field("temperature", FieldValue::Sampling(s)));
            },
            None => {},
        }
        match top_p {
            Some(s) => {
                fields.push(field("top_p", FieldValue::Sampling(s)));
            },
            None => {},
        }
        match stream {
            Some(b) => {
                fields.push(field("stream", FieldValue::Flag(b)));
            },
            None => {},
        }
        assert(fields_view(fields@) =~= chat_fields(self@));
        fields
    }
}

} // verus!
