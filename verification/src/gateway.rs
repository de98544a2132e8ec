//! The gateway operation: one request taken through validation, credential
//! resolution, the upstream call and translation, in that order.
//!
//! Each state is a type of its own and each step consumes the state it
//! leaves, so no state is entered twice and none is skipped.  A step ends the
//! operation early with the error the client is to be told, or hands on the
//! next state.  Between the steps the caller does what this library cannot:
//! it reads the credential's environment value and performs the HTTP call.

use vstd::prelude::*;
use crate::builder::{
    build, invalid_input_error, upstream_request, validate, UpstreamRequest, UpstreamRequestView,
};
use crate::credential::{absent_error, resolution, resolve_slot};
use crate::error::{GatewayError, GatewayErrorView};
use crate::invoker::{classify, outcome_of, InvokerReport, InvokerReportView, UpstreamOutcome};
use crate::provider::{CredentialSlot, Provider};
use crate::request::{
    optional_text, ChatRequest, ClientRequest, ClientRequestView, GeminiRequest, GeocodeRequest,
};
use crate::translator::{
    translate, translated_view, translation, PassthroughBody, PassthroughBodyView,
};

verus! {

/// The upstream request that an operation issues: none for an unusable
/// request, none without a credential, and otherwise exactly one.
pub open spec fn issued_request(
    request: ClientRequestView,
    lookup: Option<Seq<char>>,
) -> Option<UpstreamRequestView> {
    if !request.is_valid() {
        None
    } else {
        match resolution(lookup) {
            Err(_) => None,
            Ok(credential) => Some(upstream_request(request, credential)),
        }
    }
}

/// What the client is answered, given the request, what configuration holds
/// under the provider's credential name, and what the HTTP client observed.
/// The first fault in the order of the states decides.
pub open spec fn operation_reply(
    request: ClientRequestView,
    lookup: Option<Seq<char>>,
    report: InvokerReportView,
) -> Result<PassthroughBodyView, GatewayErrorView> {
    if !request.is_valid() {
        Err(invalid_input_error(request.provider()))
    } else {
        match resolution(lookup) {
            Err(reason) => Err(absent_error(request.provider().spec_slot(), reason)),
            Ok(_) => translation(request.provider(), outcome_of(report)),
        }
    }
}

/// An operation in its first state: the request has not been looked at.
pub struct GatewayOperation {
    request: ClientRequest,
}

/// An operation whose request is usable and whose credential is wanted.
pub struct CredentialResolving {
    request: ClientRequest,
}

/// An operation whose upstream request is built and is to be sent.
pub struct Invoking {
    provider: Provider,
    upstream: UpstreamRequest,
    request: Ghost<ClientRequestView>,
    lookup: Ghost<Option<Seq<char>>>,
}

/// An operation whose upstream call is over and whose outcome is to be
/// translated.
pub struct Translating {
    provider: Provider,
    outcome: UpstreamOutcome,
    request: Ghost<ClientRequestView>,
    lookup: Ghost<Option<Seq<char>>>,
    report: Ghost<InvokerReportView>,
}

impl GatewayOperation {
    /// The client's request.
    pub closed spec fn request(&self) -> ClientRequestView {
        self.request@
    }

    /// Starts an operation for a request.
    pub fn new(request: ClientRequest) -> (operation: GatewayOperation)
        ensures
            operation.request() == request@,
    {
        GatewayOperation { request }
    }

    /// Validates the request.  An unusable request ends the operation here,
    /// before a credential is read or anything is sent.
    pub fn validate(self) -> (checked: Result<CredentialResolving, GatewayError>)
        ensures
            checked is Ok <==> self.request().is_valid(),
            checked matches Ok(next) ==> next.request() == self.request(),
            checked matches Err(e) ==> e@ == invalid_input_error(self.request().provider()),
    {
        match validate(&self.request) {
            Ok(()) => Ok(CredentialResolving { request: self.request }),
            Err(e) => Err(e),
        }
    }
}

impl CredentialResolving {
    #[verifier::type_invariant]
    spec fn is_validated(self) -> bool {
        self.request@.is_valid()
    }

    /// The client's request.
    pub closed spec fn request(&self) -> ClientRequestView {
        self.request@
    }

    /// The slot of the credential that is wanted.  An operation in this
    /// state has a usable request.
    pub fn slot(&self) -> (slot: CredentialSlot)
        ensures
            slot == self.request().provider().spec_slot(),
            self.request().is_valid(),
    {
        proof {
            use_type_invariant(self);
        }
        self.request.provider().slot()
    }

    /// The name of the environment value that the caller is to read.
    pub fn credential_name(&self) -> (name: &'static str)
        ensures
            name@ == self.request().provider().spec_slot().spec_name(),
            self.request().is_valid(),
    {
        self.slot().name()
    }

    /// Takes what the caller read under [`Self::credential_name`]; `None`
    /// stands for a name that is not set.  An absent credential ends the
    /// operation here, before anything is sent; otherwise the upstream
    /// request is built.
    pub fn resolve(self, lookup: Option<String>) -> (resolved: Result<Invoking, GatewayError>)
        ensures
            resolved is Ok <==> resolution(optional_text(lookup)) is Ok,
            resolved matches Ok(next) ==> next.request() == self.request() && next.lookup()
                == optional_text(lookup),
            resolved matches Err(e) ==> e@ == absent_error(
                self.request().provider().spec_slot(),
                resolution(optional_text(lookup))->Err_0,
            ),
    {
        proof {
            use_type_invariant(&self);
        }
        let ghost request = self.request@;
        let ghost looked_up = optional_text(lookup);
        let provider = self.request.provider();
        match resolve_slot(provider.slot(), lookup) {
            Err(e) => Err(e),
            Ok(credential) => match build(self.request, &credential) {
                Ok(upstream) => Ok(
                    Invoking {
                        provider,
                        upstream,
                        request: Ghost(request),
                        lookup: Ghost(looked_up),
                    },
                ),
                Err(e) => Err(e),
            },
        }
    }
}

impl Invoking {
    #[verifier::type_invariant]
    spec fn is_built(self) -> bool {
        &&& self.provider == self.request@.provider()
        &&& issued_request(self.request@, self.lookup@) == Some(self.upstream@)
    }

    /// The client's request.
    pub closed spec fn request(&self) -> ClientRequestView {
        self.request@
    }

    /// What configuration held under the credential's name.
    pub closed spec fn lookup(&self) -> Option<Seq<char>> {
        self.lookup@
    }

    /// The request that the caller is to send, once.
    pub fn upstream(&self) -> (upstream: &UpstreamRequest)
        ensures
            issued_request(self.request(), self.lookup()) == Some(upstream@),
    {
        proof {
            use_type_invariant(self);
        }
        &self.upstream
    }

    /// Takes what the HTTP client observed of the call and classifies it.
    pub fn receive(self, report: InvokerReport) -> (next: Translating)
        ensures
            next.request() == self.request(),
            next.lookup() == self.lookup(),
            next.report() == report@,
    {
        proof {
            use_type_invariant(&self);
        }
        let ghost observed = report@;
        Translating {
            provider: self.provider,
            outcome: classify(report),
            request: self.request,
            lookup: self.lookup,
            report: Ghost(observed),
        }
    }
}

impl Translating {
    #[verifier::type_invariant]
    spec fn is_classified(self) -> bool {
        &&& self.provider == self.request@.provider()
        &&& issued_request(self.request@, self.lookup@) is Some
        &&& self.outcome@ == outcome_of(self.report@)
    }

    /// The client's request.
    pub closed spec fn request(&self) -> ClientRequestView {
        self.request@
    }

    /// What configuration held under the credential's name.
    pub closed spec fn lookup(&self) -> Option<Seq<char>> {
        self.lookup@
    }

    /// What the HTTP client observed of the call.
    pub closed spec fn report(&self) -> InvokerReportView {
        self.report@
    }

    /// Translates the outcome into the client's answer, which ends the
    /// operation.  The answer is that of the whole operation; since the
    /// request was usable and its credential present, it is the translation
    /// of what was observed.
    pub fn translate(self) -> (reply: Result<PassthroughBody, GatewayError>)
        ensures
            translated_view(reply) == operation_reply(self.request(), self.lookup(), self.report()),
            translated_view(reply) == translation(
                self.request().provider(),
                outcome_of(self.report()),
            ),
    {
        proof {
            use_type_invariant(&self);
        }
        translate(self.provider, self.outcome)
    }
}

/// Starts a chat-completion operation and validates its payload.
pub fn get_details(payload: ChatRequest) -> (checked: Result<CredentialResolving, GatewayError>)
    ensures
        checked is Ok <==> payload@.messages.len() > 0,
        checked matches Ok(next) ==> next.request() == ClientRequestView::Chat(payload@),
        checked matches Err(e) ==> e@ == invalid_input_error(Provider::ChatCompletion),
{
    GatewayOperation::new(ClientRequest::Chat(payload)).validate()
}

/// Starts a geocoding operation and validates its parameters.
pub fn geocode_address(params: GeocodeRequest) -> (checked: Result<
    CredentialResolving,
    GatewayError,
>)
    ensures
        checked is Ok <==> !crate::text::is_blank(params@.q),
        checked matches Ok(next) ==> next.request() == ClientRequestView::Geocode(params@),
        checked matches Err(e) ==> e@ == invalid_input_error(Provider::Geocode),
{
    GatewayOperation::new(ClientRequest::Geocode(params)).validate()
}

/// Starts a generation operation and validates its payload.
pub fn gemini_generate(payload: GeminiRequest) -> (checked: Result<
    CredentialResolving,
    GatewayError,
>)
    ensures
        checked is Ok <==> payload@.contents.len() > 0,
        checked matches Ok(next) ==> next.request() == ClientRequestView::Generate(payload@),
        checked matches Err(e) ==> e@ == invalid_input_error(Provider::GenerativeAi),
{
    GatewayOperation::new(ClientRequest::Generate(payload)).validate()
}

} // verus!
