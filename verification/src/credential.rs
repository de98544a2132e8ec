//! The credential resolver: from what configuration holds under a slot's
//! name to a usable credential, or to the reason there is none.

use vstd::prelude::*;
use crate::error::{GatewayError, GatewayErrorView, STATUS_INTERNAL_ERROR};
use crate::provider::CredentialSlot;
use crate::request::optional_text;
use crate::text::concat2;

verus! {

/// An API key: an opaque token that is never empty.  It is neither printed
/// nor copied.
pub struct Credential {
    token: String,
}

impl View for Credential {
    type V = Seq<char>;

    closed spec fn view(&self) -> Seq<char> {
        self.token@
    }
}

impl Credential {
    #[verifier::type_invariant]
    spec fn is_present(self) -> bool {
        self.token@.len() > 0
    }

    /// The token itself.
    pub fn token(&self) -> (token: &str)
        ensures
            token@ == self@,
            token@.len() > 0,
    {
        proof {
            use_type_invariant(self);
        }
        self.token.as_str()
    }
}

/// Why a slot yields no credential.  The two reasons point at different
/// mistakes of the operator and are reported under different codes.
#[derive(Clone, Copy, Debug, PartialEq, Eq, Structural)]
pub enum AbsentCredential {
    /// The name is not set.
    Missing,
    /// The name is set to the empty text.
    Empty,
}

/// What a lookup resolves to: the value where it is set and not empty.
pub open spec fn resolution(lookup: Option<Seq<char>>) -> Result<Seq<char>, AbsentCredential> {
    match lookup {
        None => Err(AbsentCredential::Missing),
        Some(value) => if value.len() == 0 {
            Err(AbsentCredential::Empty)
        } else {
            Ok(value)
        },
    }
}

/// The content of a resolver's result.
pub open spec fn resolved_view(resolved: Result<Credential, AbsentCredential>) -> Result<
    Seq<char>,
    AbsentCredential,
> {
    match resolved {
        Ok(credential) => Ok(credential@),
        Err(reason) => Err(reason),
    }
}

/// Resolves what was read under a slot's name; `None` stands for a name that
/// is not set.
pub fn resolve(lookup: Option<String>) -> (resolved: Result<Credential, AbsentCredential>)
    ensures
        resolved_view(resolved) == resolution(optional_text(lookup)),
{
    match lookup {
        None => Err(AbsentCredential::Missing),
        Some(value) => {
            if value.as_str().is_empty() {
                Err(AbsentCredential::Empty)
            } else {
                Ok(Credential { token: value })
            }
        },
    }
}

/// The short description of an absent credential.
pub open spec fn absent_summary(slot: CredentialSlot, reason: AbsentCredential) -> Seq<char> {
    match (slot, reason) {
        (CredentialSlot::AiService, AbsentCredential::Missing) => "AI service API key is missing"@,
        (CredentialSlot::AiService, AbsentCredential::Empty) => "AI service API key is not configured"@,
        (CredentialSlot::OpenCage, AbsentCredential::Missing) => "Geocoding API key is missing"@,
        (CredentialSlot::OpenCage, AbsentCredential::Empty) => "Geocoding API key is not configured"@,
        (CredentialSlot::Gemini, AbsentCredential::Missing) => "Gemini API key is missing"@,
        (CredentialSlot::Gemini, AbsentCredential::Empty) => "Gemini API key is not configured"@,
        (CredentialSlot::GoogleMaps, AbsentCredential::Missing) => "Google Maps API key is missing"@,
        (CredentialSlot::GoogleMaps, AbsentCredential::Empty) => "Google Maps API key is not configured"@,
    }
}

/// The machine code of an absent credential.
pub open spec fn absent_code(slot: CredentialSlot, reason: AbsentCredential) -> Seq<char> {
    match (slot, reason) {
        (CredentialSlot::AiService, AbsentCredential::Missing) => "AI_KEY_MISSING"@,
        (CredentialSlot::AiService, AbsentCredential::Empty) => "AI_KEY_EMPTY"@,
        (CredentialSlot::OpenCage, AbsentCredential::Missing) => "GEOCODE_KEY_MISSING"@,
        (CredentialSlot::OpenCage, AbsentCredential::Empty) => "GEOCODE_KEY_EMPTY"@,
        (CredentialSlot::Gemini, AbsentCredential::Missing) => "GEMINI_KEY_MISSING"@,
        (CredentialSlot::Gemini, AbsentCredential::Empty) => "GEMINI_KEY_EMPTY"@,
        (CredentialSlot::GoogleMaps, AbsentCredential::Missing) => "MAPS_KEY_MISSING"@,
        (CredentialSlot::GoogleMaps, AbsentCredential::Empty) => "MAPS_KEY_EMPTY"@,
    }
}

/// What the operator is told to do about an absent credential.
pub open spec fn absent_advice(reason: AbsentCredential) -> Seq<char> {
    match reason {
        AbsentCredential::Missing =>
            " environment variable is not set. Please add it to the backend .env file."@,
        AbsentCredential::Empty =>
            " environment variable is empty. Please add a valid API key to the backend .env file."@,
    }
}

/// The error for an absent credential: a fault of the server, so status 500,
/// with a message that names the slot's environment value.
pub open spec fn absent_error(slot: CredentialSlot, reason: AbsentCredential) -> GatewayErrorView {
    GatewayErrorView {
        http_status: STATUS_INTERNAL_ERROR,
        error: absent_summary(slot, reason),
        message: "The "@ + slot.spec_name() + absent_advice(reason),
        code: absent_code(slot, reason),
        upstream_status: None,
    }
}

fn absent_summary_text(slot: CredentialSlot, reason: AbsentCredential) -> (text: &'static str)
    ensures
        text@ == absent_summary(slot, reason),
{
    match (slot, reason) {
        (CredentialSlot::AiService, AbsentCredential::Missing) => "AI service API key is missing",
        (CredentialSlot::AiService, AbsentCredential::Empty) => "AI service API key is not configured",
        (CredentialSlot::OpenCage, AbsentCredential::Missing) => "Geocoding API key is missing",
        (CredentialSlot::OpenCage, AbsentCredential::Empty) => "Geocoding API key is not configured",
        (CredentialSlot::Gemini, AbsentCredential::Missing) => "Gemini API key is missing",
        (CredentialSlot::Gemini, AbsentCredential::Empty) => "Gemini API key is not configured",
        (CredentialSlot::GoogleMaps, AbsentCredential::Missing) => "Google Maps API key is missing",
        (CredentialSlot::GoogleMaps, AbsentCredential::Empty) => "Google Maps API key is not configured",
    }
}

fn absent_code_text(slot: CredentialSlot, reason: AbsentCredential) -> (text: &'static str)
    ensures
        text@ == absent_code(slot, reason),
{
    match (slot, reason) {
        (CredentialSlot::AiService, AbsentCredential::Missing) => "AI_KEY_MISSING",
        (CredentialSlot::AiService, AbsentCredential::Empty) => "AI_KEY_EMPTY",
        (CredentialSlot::OpenCage, AbsentCredential::Missing) => "GEOCODE_KEY_MISSING",
        (CredentialSlot::OpenCage, AbsentCredential::Empty) => "GEOCODE_KEY_EMPTY",
        (CredentialSlot::Gemini, AbsentCredential::Missing) => "GEMINI_KEY_MISSING",
        (CredentialSlot::Gemini, AbsentCredential::Empty) => "GEMINI_KEY_EMPTY",
        (CredentialSlot::GoogleMaps, AbsentCredential::Missing) => "MAPS_KEY_MISSING",
        (CredentialSlot::GoogleMaps, AbsentCredential::Empty) => "MAPS_KEY_EMPTY",
    }
}

fn absent_advice_text(reason: AbsentCredential) -> (text: &'static str)
    ensures
        text@ == absent_advice(reason),
{
    match reason {
        AbsentCredential::Missing =>
            " environment variable is not set. Please add it to the backend .env file.",
        AbsentCredential::Empty =>
            " environment variable is empty. Please add a valid API key to the backend .env file.",
    }
}

/// Builds the error for an absent credential.
pub fn absent_credential_error(slot: CredentialSlot, reason: AbsentCredential) -> (e: GatewayError)
    ensures
        e@ == absent_error(slot, reason),
{
    let mut message = concat2("The ", slot.name());
    message.append(absent_advice_text(reason));
    GatewayError::local(
        STATUS_INTERNAL_ERROR,
        absent_summary_text(slot, reason),
        message,
        absent_code_text(slot, reason),
    )
}

/// What resolving a slot comes to: the credential, or the error that the
/// client is to be told.
pub open spec fn slot_resolution(slot: CredentialSlot, lookup: Option<Seq<char>>) -> Result<
    Seq<char>,
    GatewayErrorView,
> {
    match resolution(lookup) {
        Ok(value) => Ok(value),
        Err(reason) => Err(absent_error(slot, reason)),
    }
}

/// Resolves a slot's credential, or says what the client is to be told.
pub fn resolve_slot(slot: CredentialSlot, lookup: Option<String>) -> (resolved: Result<
    Credential,
    GatewayError,
>)
    ensures
        match resolved {
            Ok(credential) => slot_resolution(slot, optional_text(lookup)) == Ok::<
                Seq<char>,
                GatewayErrorView,
            >(credential@),
            Err(e) => slot_resolution(slot, optional_text(lookup)) == Err::<
                Seq<char>,
                GatewayErrorView,
            >(e@),
        },
{
    match resolve(lookup) {
        Ok(credential) => Ok(credential),
        Err(reason) => Err(absent_credential_error(slot, reason)),
    }
}

/// The maps configuration handed to clients: the maps API key.
#[derive(Clone, Debug, PartialEq, Eq)]
pub struct MapsConfig {
    pub api_key: String,
}

/// Answers a request for the maps configuration from what was read under the
/// maps slot's name.
pub fn get_maps_config(lookup: Option<String>) -> (config: Result<MapsConfig, GatewayError>)
    ensures
        match config {
            Ok(c) => slot_resolution(CredentialSlot::GoogleMaps, optional_text(lookup)) == Ok::<
                Seq<char>,
                GatewayErrorView,
            >(c.api_key@),
            Err(e) => slot_resolution(CredentialSlot::GoogleMaps, optional_text(lookup)) == Err::<
                Seq<char>,
                GatewayErrorView,
            >(e@),
        },
{
    match resolve_slot(CredentialSlot::GoogleMaps, lookup) {
        Ok(credential) => Ok(MapsConfig { api_key: String::from_str(credential.token()) }),
        Err(e) => Err(e),
    }
}

} // verus!
