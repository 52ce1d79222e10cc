//! The reply that the skill sends back to Alexa: what is spoken, what is spoken
//! again when the user stays silent, and whether the session ends.
use vstd::prelude::*;
use vstd::string::*;
use crate::alexa::text::opt_view;

verus! {

/// How the speech of a reply is encoded.
#[derive(Clone, Copy, Debug, PartialEq, Eq, Structural)]
pub enum OutputSpeechType {
    SSML,
    PlainText,
    Unknown,
}

impl OutputSpeechType {
    /// The name under which the speech type is written out.
    pub open spec fn name(self) -> Seq<char> {
        match self {
            OutputSpeechType::SSML => "SSML"@,
            OutputSpeechType::PlainText => "PlainText"@,
            OutputSpeechType::Unknown => "Unknown"@,
        }
    }

    /// The name under which the speech type is written out.
    pub fn to_string(&self) -> (r: String)
        ensures
            r@ == self.name(),
    {
        match self {
            OutputSpeechType::SSML => String::from_str("SSML"),
            OutputSpeechType::PlainText => String::from_str("PlainText"),
            OutputSpeechType::Unknown => String::from_str("Unknown"),
        }
    }
}

/// The abstract content of an [`OutputSpeech`].
pub struct SpeechModel {
    pub kind: OutputSpeechType,
    pub ssml: Option<Seq<char>>,
    pub text: Option<Seq<char>>,
    pub play_behavior: Option<Seq<char>>,
}

/// Speech with no content yet.
pub open spec fn blank_speech() -> SpeechModel {
    SpeechModel { kind: OutputSpeechType::Unknown, ssml: None, text: None, play_behavior: None }
}

/// Speech that says `text` as plain text.
pub open spec fn text_speech(text: Seq<char>) -> SpeechModel {
    SpeechModel { kind: OutputSpeechType::PlainText, ssml: None, text: Some(text), play_behavior: None }
}

/// Speech that says `ssml` as SSML.
pub open spec fn ssml_speech(ssml: Seq<char>) -> SpeechModel {
    SpeechModel { kind: OutputSpeechType::SSML, ssml: Some(ssml), text: None, play_behavior: None }
}

/// What Alexa says.
pub struct OutputSpeech {
    pub speech_type: OutputSpeechType,
    pub ssml: Option<String>,
    pub text: Option<String>,
    pub play_behavior: Option<String>,
}

impl View for OutputSpeech {
    type V = SpeechModel;

    open spec fn view(&self) -> SpeechModel {
        SpeechModel {
            kind: self.speech_type,
            ssml: opt_view(self.ssml),
            text: opt_view(self.text),
            play_behavior: opt_view(self.play_behavior),
        }
    }
}

impl OutputSpeech {
    /// Speech of unknown type with no content.
    pub fn new() -> (r: Self)
        ensures
            r@ == blank_speech(),
    {
        Self { speech_type: OutputSpeechType::Unknown, ssml: None, text: None, play_behavior: None }
    }

    /// Marks the speech as SSML and sets its SSML content; the plain text, if any,
    /// is kept.
    pub fn with_ssml(self, ssml: &str) -> (r: Self)
        ensures
            r@ == (SpeechModel { kind: OutputSpeechType::SSML, ssml: Some(ssml@), ..self@ }),
    {
        let mut s = self;
        s.speech_type = OutputSpeechType::SSML;
        s.ssml = Some(String::from_str(ssml));
        s
    }

    /// Marks the speech as plain text and sets its text; the SSML content, if any,
    /// is kept.
    pub fn with_text(self, text: &str) -> (r: Self)
        ensures
            r@ == (SpeechModel { kind: OutputSpeechType::PlainText, text: Some(text@), ..self@ }),
    {
        let mut s = self;
        s.speech_type = OutputSpeechType::PlainText;
        s.text = Some(String::from_str(text));
        s
    }
}

/// What Alexa says when the user does not answer.
pub struct ResponseReprompt {
    pub output_speech: OutputSpeech,
}

impl ResponseReprompt {
    /// A reprompt that says `o`.
    pub fn new(o: OutputSpeech) -> (r: Self)
        ensures
            r.output_speech == o,
    {
        Self { output_speech: o }
    }
}

/// The abstract content of an [`AlexaResponse`].
pub struct ResponseModel {
    pub speech: SpeechModel,
    pub reprompt: Option<SpeechModel>,
    pub end_session: bool,
    pub session_attributes: Option<()>,
}

/// The response with blank speech, no reprompt, and an open session.
pub open spec fn default_response() -> ResponseModel {
    ResponseModel {
        speech: blank_speech(),
        reprompt: None,
        end_session: false,
        session_attributes: None,
    }
}

/// A response body.
pub struct AlexaResponse {
    pub output_speech: OutputSpeech,
    pub reprompt: Option<ResponseReprompt>,
    pub should_end_session: bool,
    pub session_attributes: Option<()>,
}

impl View for AlexaResponse {
    type V = ResponseModel;

    open spec fn view(&self) -> ResponseModel {
        ResponseModel {
            speech: self.output_speech@,
            reprompt: match self.reprompt {
                Some(r) => Some(r.output_speech@),
                None => None,
            },
            end_session: self.should_end_session,
            session_attributes: self.session_attributes,
        }
    }
}

impl Default for AlexaResponse {
    fn default() -> (r: Self)
        ensures
            r@ == default_response(),
    {
        Self {
            output_speech: OutputSpeech::new(),
            reprompt: None,
            should_end_session: false,
            session_attributes: None,
        }
    }
}

impl AlexaResponse {
    /// The default response, saying `text` as plain text.
    pub fn new_with_text(text: &str) -> (r: Self)
        ensures
            r@ == (ResponseModel { speech: text_speech(text@), ..default_response() }),
    {
        Self::default().with_output_speech(OutputSpeech::new().with_text(text))
    }

    /// The default response, saying `ssml` as SSML.
    pub fn new_with_ssml(ssml: &str) -> (r: Self)
        ensures
            r@ == (ResponseModel { speech: ssml_speech(ssml@), ..default_response() }),
    {
        Self::default().with_output_speech(OutputSpeech::new().with_ssml(ssml))
    }

    /// Replaces the speech.
    pub fn with_output_speech(self, o: OutputSpeech) -> (r: Self)
        ensures
            r@ == (ResponseModel { speech: o@, ..self@ }),
    {
        let mut s = self;
        s.output_speech = o;
        s
    }

    /// Replaces the reprompt with one that says `ssml` as SSML.
    pub fn with_reprompt_ssml(self, ssml: &str) -> (r: Self)
        ensures
            r@ == (ResponseModel { reprompt: Some(ssml_speech(ssml@)), ..self@ }),
    {
        let mut s = self;
        s.reprompt = Some(ResponseReprompt::new(OutputSpeech::new().with_ssml(ssml)));
        s
    }

    /// Replaces the reprompt with one that says `text` as plain text.
    pub fn with_reprompt_text(self, text: &str) -> (r: Self)
        ensures
            r@ == (ResponseModel { reprompt: Some(text_speech(text@)), ..self@ }),
    {
        let mut s = self;
        s.reprompt = Some(ResponseReprompt::new(OutputSpeech::new().with_text(text)));
        s
    }

    /// Replaces the speech with fresh speech saying `text` as plain text.
    pub fn with_text(self, text: &str) -> (r: Self)
        ensures
            r@ == (ResponseModel { speech: text_speech(text@), ..self@ }),
    {
        self.with_output_speech(OutputSpeech::new().with_text(text))
    }

    /// Replaces the speech with fresh speech saying `ssml` as SSML.
    pub fn with_ssml(self, ssml: &str) -> (r: Self)
        ensures
            r@ == (ResponseModel { speech: ssml_speech(ssml@), ..self@ }),
    {
        self.with_output_speech(OutputSpeech::new().with_ssml(ssml))
    }

    /// Sets whether the session ends after this response.
    pub fn should_end_session(self, end: bool) -> (r: Self)
        ensures
            r@ == (ResponseModel { end_session: end, ..self@ }),
    {
        let mut s = self;
        s.should_end_session = end;
        s
    }
}

/// The abstract content of an [`ApiResponse`].
pub struct ApiResponseModel {
    pub version: Seq<char>,
    pub response: ResponseModel,
}

/// The protocol version that every reply carries.
pub open spec fn api_version() -> Seq<char> {
    "1.0"@
}

/// The envelope sent back to Alexa.
pub struct ApiResponse {
    pub version: String,
    pub response: AlexaResponse,
}

impl View for ApiResponse {
    type V = ApiResponseModel;

    open spec fn view(&self) -> ApiResponseModel {
        ApiResponseModel { version: self.version@, response: self.response@ }
    }
}

impl Default for ApiResponse {
    fn default() -> (r: Self)
        ensures
            r@ == (ApiResponseModel { version: api_version(), response: default_response() }),
    {
        Self { version: String::from_str("1.0"), response: AlexaResponse::default() }
    }
}

impl ApiResponse {
    /// Replaces the response body.
    pub fn with_response(self, response: AlexaResponse) -> (r: Self)
        ensures
            r@ == (ApiResponseModel { response: response@, ..self@ }),
    {
        let mut s = self;
        s.response = response;
        s
    }
}

} // verus!
