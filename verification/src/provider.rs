//! The upstream providers and the configuration keys that hold their
//! credentials.

use vstd::prelude::*;

verus! {

/// One of the three upstream HTTP APIs the gateway forwards to.
#[derive(Clone, Copy, Debug, PartialEq, Eq, Structural)]
pub enum Provider {
    /// The chat-completions AI service.
    ChatCompletion,
    /// The geocoding service.
    Geocode,
    /// The generative-AI service.
    GenerativeAi,
}

/// A configuration key that holds one credential.  Each provider has its own;
/// the maps key is handed to clients and belongs to no provider.
#[derive(Clone, Copy, Debug, PartialEq, Eq, Structural)]
pub enum CredentialSlot {
    AiService,
    OpenCage,
    Gemini,
    GoogleMaps,
}

impl Provider {
    /// The slot that holds this provider's credential.
    pub open spec fn spec_slot(self) -> CredentialSlot {
        match self {
            Provider::ChatCompletion => CredentialSlot::AiService,
            Provider::Geocode => CredentialSlot::OpenCage,
            Provider::GenerativeAi => CredentialSlot::Gemini,
        }
    }

    /// The slot that holds this provider's credential.
    #[verifier::when_used_as_spec(spec_slot)]
    pub fn slot(self) -> (slot: CredentialSlot)
        ensures
            slot == self.spec_slot(),
    {
        match self {
            Provider::ChatCompletion => CredentialSlot::AiService,
            Provider::Geocode => CredentialSlot::OpenCage,
            Provider::GenerativeAi => CredentialSlot::Gemini,
        }
    }
}

impl CredentialSlot {
    /// The name of the environment value that holds the credential.
    pub open spec fn spec_name(self) -> Seq<char> {
        match self {
            CredentialSlot::AiService => "AI_SERVICE_API_KEY"@,
            CredentialSlot::OpenCage => "OPENCAGE_API_KEY"@,
            CredentialSlot::Gemini => "GEMINI_API_KEY"@,
            CredentialSlot::GoogleMaps => "GOOGLE_MAPS_API_KEY"@,
        }
    }

    /// The name of the environment value that holds the credential.
    pub fn name(self) -> (name: &'static str)
        ensures
            name@ == self.spec_name(),
    {
        match self {
            CredentialSlot::AiService => "AI_SERVICE_API_KEY",
            CredentialSlot::OpenCage => "OPENCAGE_API_KEY",
            CredentialSlot::Gemini => "GEMINI_API_KEY",
            CredentialSlot::GoogleMaps => "GOOGLE_MAPS_API_KEY",
        }
    }
}

/// No two slots read the same environment value.
pub proof fn lemma_slot_names_distinct(a: CredentialSlot, b: CredentialSlot)
    requires
        a != b,
    ensures
        a.spec_name() != b.spec_name(),
{
    reveal_strlit("AI_SERVICE_API_KEY");
    reveal_strlit("OPENCAGE_API_KEY");
    reveal_strlit("GEMINI_API_KEY");
    reveal_strlit("GOOGLE_MAPS_API_KEY");
    // The lengths are 18, 16, 14 and 19.
    assert(a.spec_name().len() != b.spec_name().len());
}

/// No two providers share a credential.
pub proof fn lemma_provider_slots_distinct(p: Provider, q: Provider)
    requires
        p != q,
    ensures
        p.spec_slot() != q.spec_slot(),
        p.spec_slot().spec_name() != q.spec_slot().spec_name(),
{
    lemma_slot_names_distinct(p.spec_slot(), q.spec_slot());
}

} // verus!
