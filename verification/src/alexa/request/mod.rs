//! What Alexa sends: the kind of request, and the fields that every request carries.
use vstd::prelude::*;
use vstd::string::*;
use crate::alexa::request::intent::IntentRequest;
use crate::alexa::text::str_eq;

pub mod api;
pub mod intent;
pub mod launch;
pub mod presets;

verus! {

/// The kind of request that Alexa sends.
#[derive(Clone, Copy, Debug, PartialEq, Eq, Structural)]
pub enum RequestType {
    LaunchRequest,
    IntentRequest,
    CanCagarIntentRequest,
    SessionEndedRequest,
    Generic,
}

/// The request type named by `s`; names that are not recognised fall back to `Generic`.
pub open spec fn parse_request_type(s: Seq<char>) -> RequestType {
    if s == "LaunchRequest"@ {
        RequestType::LaunchRequest
    } else if s == "IntentRequest"@ {
        RequestType::IntentRequest
    } else if s == "SessionEndedRequest"@ {
        RequestType::SessionEndedRequest
    } else {
        RequestType::Generic
    }
}

impl RequestType {
    /// The name under which the request type is written out.
    pub open spec fn name(self) -> Seq<char> {
        match self {
            RequestType::LaunchRequest => "LaunchRequest"@,
            RequestType::IntentRequest => "IntentRequest"@,
            RequestType::CanCagarIntentRequest => "CanCagarIntentRequest"@,
            RequestType::SessionEndedRequest => "SessionEndedRequest"@,
            RequestType::Generic => "Generic"@,
        }
    }

    /// Reads a request type from its name. It never fails: an unknown name gives
    /// `Generic`.
    pub fn from_str(s: &str) -> (r: Result<RequestType, RequestType>)
        ensures
            r == Ok::<RequestType, RequestType>(parse_request_type(s@)),
    {
        if str_eq(s, "LaunchRequest") {
            Ok(RequestType::LaunchRequest)
        } else if str_eq(s, "IntentRequest") {
            Ok(RequestType::IntentRequest)
        } else if str_eq(s, "SessionEndedRequest") {
            Ok(RequestType::SessionEndedRequest)
        } else {
            Ok(RequestType::Generic)
        }
    }

    /// The name under which the request type is written out.
    pub fn to_string(&self) -> (r: String)
        ensures
            r@ == self.name(),
    {
        match self {
            RequestType::LaunchRequest => String::from_str("LaunchRequest"),
            RequestType::IntentRequest => String::from_str("IntentRequest"),
            RequestType::CanCagarIntentRequest => String::from_str("CanCagarIntentRequest"),
            RequestType::SessionEndedRequest => String::from_str("SessionEndedRequest"),
            RequestType::Generic => String::from_str("Generic"),
        }
    }
}

/// Reading back the name of a request type gives that type, for every type that
/// reading can produce (`CanCagarIntentRequest` is read back as `Generic`).
pub proof fn lemma_request_type_name_round_trip(t: RequestType)
    requires
        t != RequestType::CanCagarIntentRequest,
    ensures
        parse_request_type(t.name()) == t,
{
    reveal_strlit("LaunchRequest");
    reveal_strlit("IntentRequest");
    reveal_strlit("SessionEndedRequest");
    reveal_strlit("Generic");
    match t {
        RequestType::IntentRequest => {
            assert("IntentRequest"@[0] != "LaunchRequest"@[0]);
        },
        RequestType::SessionEndedRequest => {
            assert("SessionEndedRequest"@[0] != "LaunchRequest"@[0]);
            assert("SessionEndedRequest"@[0] != "IntentRequest"@[0]);
        },
        RequestType::Generic => {
            assert("Generic"@[0] != "LaunchRequest"@[0]);
            assert("Generic"@[0] != "IntentRequest"@[0]);
            assert("Generic"@[0] != "SessionEndedRequest"@[0]);
        },
        _ => {},
    }
}

/// The fields that every request carries.
pub struct GenericRequest {
    pub request_type: RequestType,
    pub id: String,
    pub timestamp: String,
    pub locale: String,
}

/// The locale assumed when a request does not name one.
pub open spec fn default_locale() -> Seq<char> {
    "pt-BR"@
}

impl Default for GenericRequest {
    fn default() -> (r: Self)
        ensures
            r.request_type == RequestType::Generic,
            r.id@ == Seq::<char>::empty(),
            r.timestamp@ == Seq::<char>::empty(),
            r.locale@ == default_locale(),
    {
        Self {
            request_type: RequestType::Generic,
            id: String::new(),
            timestamp: String::new(),
            locale: String::from_str("pt-BR"),
        }
    }
}

/// Access to the common fields of a request. A request kind that does not carry
/// them gets the defaults: a `Generic` type, empty id and timestamp, and the
/// locale `pt-BR`.
pub trait GenericRequestImpl {
    fn request_type() -> (r: RequestType)
        default_ensures
            r == RequestType::Generic,
    {
        RequestType::Generic
    }

    fn id(&self) -> (r: String)
        default_ensures
            r@ == Seq::<char>::empty(),
    {
        String::new()
    }

    fn timestamp(&self) -> (r: String)
        default_ensures
            r@ == Seq::<char>::empty(),
    {
        String::new()
    }

    fn locale(&self) -> (r: String)
        default_ensures
            r@ == default_locale(),
    {
        String::from_str("pt-BR")
    }
}

/// What the skill reads of a request from Alexa: the protocol version, the `type`
/// field of the request body (present but not a string reads as the empty string),
/// and the body read as an intent request, when it is one.
pub struct AlexaApiRequest {
    pub version: String,
    pub body_type: Option<String>,
    pub intent: Option<IntentRequest>,
}

} // verus!
