//! Audio transcription: the request's form fields and the decoding of the
//! service's answer, which is either a transcript or one of two error shapes.

use crate::codec::{parsed, DECODE_FAILURE};
use crate::json::{items_view, Json, JsonView};
use crate::multipart::{
    add_part, add_text, bytes_part, file_field, form_fields, new_form, text_field, with_file_name,
    PartView,
};
use crate::text::{join, joined, lemma_joined_pair, texts_view};
use vstd::prelude::*;
use vstd::string::StringExecFns;

verus! {

/// Where transcription requests are posted.
pub const AUDIO_TRANSCRIPTION_API_URL: &'static str =
    "https://api.deepinfra.com/v1/openai/audio/transcriptions";

/// A transcript.
#[derive(Debug, Clone, PartialEq, Eq)]
pub struct AudioTranscriptionResponse {
    pub text: String,
}

/// The view of an [`AudioTranscriptionResponse`].
pub struct AudioTranscriptionResponseView {
    pub text: Seq<char>,
}

impl View for AudioTranscriptionResponse {
    type V = AudioTranscriptionResponseView;

    open spec fn view(&self) -> AudioTranscriptionResponseView {
        AudioTranscriptionResponseView { text: self.text@ }
    }
}

/// One validation error: where in the request it lies, what is wrong, and
/// the kind of error.
#[derive(Debug, Clone, PartialEq, Eq)]
pub struct ErrorDetail {
    pub loc: Vec<String>,
    pub msg: String,
    pub error_type: String,
}

/// The view of an [`ErrorDetail`].
pub struct ErrorDetailView {
    pub loc: Seq<Seq<char>>,
    pub msg: Seq<char>,
    pub error_type: Seq<char>,
}

impl View for ErrorDetail {
    type V = ErrorDetailView;

    open spec fn view(&self) -> ErrorDetailView {
        ErrorDetailView {
            loc: texts_view(self.loc@),
            msg: self.msg@,
            error_type: self.error_type@,
        }
    }
}

/// The views of `details`, one by one.
pub open spec fn details_view(details: Seq<ErrorDetail>) -> Seq<ErrorDetailView> {
    Seq::new(details.len(), |i: int| details[i]@)
}

/// An error answer: one message, or a list of validation errors.
#[derive(Debug, Clone, PartialEq, Eq)]
#[allow(inconsistent_fields)]
pub enum ErrorResponse {
    Simple { detail: String },
    Detailed { detail: Vec<ErrorDetail> },
}

/// The view of an [`ErrorResponse`].
#[allow(inconsistent_fields)]
pub enum ErrorResponseView {
    Simple { detail: Seq<char> },
    Detailed { detail: Seq<ErrorDetailView> },
}

impl View for ErrorResponse {
    type V = ErrorResponseView;

    open spec fn view(&self) -> ErrorResponseView {
        match self {
            ErrorResponse::Simple { detail } => ErrorResponseView::Simple { detail: detail@ },
            ErrorResponse::Detailed { detail } => ErrorResponseView::Detailed {
                detail: details_view(detail@),
            },
        }
    }
}

/// An answer of the transcription endpoint.
#[derive(Debug, Clone, PartialEq, Eq)]
pub enum AudioTranscriptionApiResponse {
    TranscriptionResponse(AudioTranscriptionResponse),
    ErrorResponse(ErrorResponse),
}

/// The view of an [`AudioTranscriptionApiResponse`].
pub enum AudioTranscriptionApiResponseView {
    TranscriptionResponse(AudioTranscriptionResponseView),
    ErrorResponse(ErrorResponseView),
}

impl View for AudioTranscriptionApiResponse {
    type V = AudioTranscriptionApiResponseView;

    open spec fn view(&self) -> AudioTranscriptionApiResponseView {
        match self {
            AudioTranscriptionApiResponse::TranscriptionResponse(r) => {
                AudioTranscriptionApiResponseView::TranscriptionResponse(r@)
            },
            AudioTranscriptionApiResponse::ErrorResponse(e) => {
                AudioTranscriptionApiResponseView::ErrorResponse(e@)
            },
        }
    }
}

#[verifier::external_type_specification]
#[verifier::external_body]
pub struct ExPathBuf(std::path::PathBuf);

/// Where the audio comes from: a file, or bytes held in memory together with
/// the file name to announce.
#[derive(Debug)]
pub enum FileSource {
    Filepath(std::path::PathBuf),
    Bytes { buffer: Vec<u8>, file_name: String },
}

/// Why a transcription failed.
#[derive(Debug, Clone, PartialEq, Eq)]
pub enum AudioTranscriptionError {
    /// The exchange with the service failed, or its answer had none of the
    /// known shapes.
    ReqwestError(String),
    /// The audio file named by the request does not exist.
    FileNotFoundError(String),
    /// Reading the audio file failed.
    IoError(String),
    /// The service answered with an error; the payload is its message.
    ErrorResponse(String),
}

/// The view of an [`AudioTranscriptionError`].
pub enum AudioTranscriptionErrorView {
    ReqwestError(Seq<char>),
    FileNotFoundError(Seq<char>),
    IoError(Seq<char>),
    ErrorResponse(Seq<char>),
}

impl View for AudioTranscriptionError {
    type V = AudioTranscriptionErrorView;

    open spec fn view(&self) -> AudioTranscriptionErrorView {
        match self {
            AudioTranscriptionError::ReqwestError(m) => AudioTranscriptionErrorView::ReqwestError(
                m@,
            ),
            AudioTranscriptionError::FileNotFoundError(m) => {
                AudioTranscriptionErrorView::FileNotFoundError(m@)
            },
            AudioTranscriptionError::IoError(m) => AudioTranscriptionErrorView::IoError(m@),
            AudioTranscriptionError::ErrorResponse(m) => {
                AudioTranscriptionErrorView::ErrorResponse(m@)
            },
        }
    }
}

impl AudioTranscriptionErrorView {
    /// The message of this error: what kind of failure it is, then the
    /// failure's own message.
    pub open spec fn description(self) -> Seq<char> {
        match self {
            AudioTranscriptionErrorView::ReqwestError(m) => "Request error: "@ + m,
            AudioTranscriptionErrorView::FileNotFoundError(m) => "File not found: "@ + m,
            AudioTranscriptionErrorView::IoError(m) => "IO error: "@ + m,
            AudioTranscriptionErrorView::ErrorResponse(m) => "Error response: "@ + m,
        }
    }
}

impl AudioTranscriptionError {
    /// The message of this error.
    pub fn describe(&self) -> (text: String)
        ensures
            text@ == self@.description(),
    {
        let (mut text, message) = match self {
            AudioTranscriptionError::ReqwestError(m) => ("Request error: ".to_owned(), m),
            AudioTranscriptionError::FileNotFoundError(m) => ("File not found: ".to_owned(), m),
            AudioTranscriptionError::IoError(m) => ("IO error: ".to_owned(), m),
            AudioTranscriptionError::ErrorResponse(m) => ("Error response: ".to_owned(), m),
        };
        text.append(message.as_str());
        text
    }
}

impl AudioTranscriptionResponseView {
    /// The transcript that `doc` holds: `doc` is an object whose member
    /// `text` is a string.
    pub open spec fn from_json(doc: JsonView) -> Option<AudioTranscriptionResponseView> {
        match doc.text_field("text"@) {
            Some(text) => Some(AudioTranscriptionResponseView { text }),
            None => None,
        }
    }
}

impl ErrorDetailView {
    /// The validation error that `doc` holds: `doc` is an object whose member
    /// `loc` is an array of strings and whose members `msg` and `type` are
    /// strings.
    pub open spec fn from_json(doc: JsonView) -> Option<ErrorDetailView> {
        match (doc.field("loc"@), doc.text_field("msg"@), doc.text_field("type"@)) {
            (Some(loc), Some(msg), Some(error_type)) => match loc.texts() {
                Some(loc) => Some(ErrorDetailView { loc, msg, error_type }),
                None => None,
            },
            _ => None,
        }
    }

    /// The line that reports this error: the location's segments joined by
    /// dots, a colon and a space, then the message.
    pub open spec fn rendering(self) -> Seq<char> {
        joined(self.loc, "."@) + ": "@ + self.msg
    }
}

/// The validation errors that `items` hold, when every item holds one.
pub open spec fn details_from_json(items: Seq<JsonView>) -> Option<Seq<ErrorDetailView>> {
    if forall|i: int| 0 <= i < items.len() ==> ErrorDetailView::from_json(#[trigger] items[i])
        is Some {
        Some(Seq::new(items.len(), |i: int| ErrorDetailView::from_json(items[i])->0))
    } else {
        None
    }
}

/// The line of each of `details`.
pub open spec fn renderings(details: Seq<ErrorDetailView>) -> Seq<Seq<char>> {
    Seq::new(details.len(), |i: int| details[i].rendering())
}

impl ErrorResponseView {
    /// The error answer that `doc` holds. The simple shape, where member
    /// `detail` is a string, is tried first; then the detailed shape, where
    /// `detail` is an array of validation errors.
    pub open spec fn from_json(doc: JsonView) -> Option<ErrorResponseView> {
        match doc.field("detail"@) {
            Some(JsonView::String(detail)) => Some(ErrorResponseView::Simple { detail }),
            Some(JsonView::Array(items)) => match details_from_json(items) {
                Some(detail) => Some(ErrorResponseView::Detailed { detail }),
                None => None,
            },
            _ => None,
        }
    }

    /// The one message an error answer is reported by: the simple message
    /// itself, or the lines of the validation errors, in their order, joined
    /// by a comma and a space.
    pub open spec fn message(self) -> Seq<char> {
        match self {
            ErrorResponseView::Simple { detail } => detail,
            ErrorResponseView::Detailed { detail } => joined(renderings(detail), ", "@),
        }
    }
}

/// With two or more validation errors, the message is the message of all
/// but the last, then a comma and a space, then the line of the last: the
/// lines stand in the order of the list, with `", "` between neighbours.
pub proof fn lemma_detailed_message_order(details: Seq<ErrorDetailView>)
    requires
        details.len() >= 2,
    ensures
        (ErrorResponseView::Detailed { detail: details }).message() == (ErrorResponseView::Detailed {
            detail: details.drop_last(),
        }).message() + ", "@ + details.last().rendering(),
{
    assert(renderings(details).drop_last() =~= renderings(details.drop_last()));
}

/// With exactly two validation errors, the message is the line of the first,
/// a comma and a space, and the line of the second.
pub proof fn lemma_detailed_message_of_two(first: ErrorDetailView, second: ErrorDetailView)
    ensures
        (ErrorResponseView::Detailed { detail: seq![first, second] }).message()
            == first.rendering() + ", "@ + second.rendering(),
{
    assert(renderings(seq![first, second]) =~= seq![first.rendering(), second.rendering()]);
    lemma_joined_pair(first.rendering(), second.rendering(), ", "@);
}

/// With one validation error, the message is its line.
pub proof fn lemma_detailed_message_of_one(only: ErrorDetailView)
    ensures
        (ErrorResponseView::Detailed { detail: seq![only] }).message() == only.rendering(),
{
    assert(renderings(seq![only])[0] == only.rendering());
}

impl AudioTranscriptionApiResponseView {
    /// The answer that `doc` holds. The shapes are tried in a fixed order and
    /// the first that fits wins: a transcript, then a simple error, then a
    /// detailed error.
    pub open spec fn from_json(doc: JsonView) -> Option<AudioTranscriptionApiResponseView> {
        match AudioTranscriptionResponseView::from_json(doc) {
            Some(r) => Some(AudioTranscriptionApiResponseView::TranscriptionResponse(r)),
            None => match ErrorResponseView::from_json(doc) {
                Some(e) => Some(AudioTranscriptionApiResponseView::ErrorResponse(e)),
                None => None,
            },
        }
    }

    /// What the caller of a transcription gets for this answer.
    pub open spec fn outcome(self) -> Result<
        AudioTranscriptionResponseView,
        AudioTranscriptionErrorView,
    > {
        match self {
            AudioTranscriptionApiResponseView::TranscriptionResponse(r) => Ok(r),
            AudioTranscriptionApiResponseView::ErrorResponse(e) => Err(
                AudioTranscriptionErrorView::ErrorResponse(e.message()),
            ),
        }
    }
}

/// What the caller of a transcription gets when the answer's body holds
/// `doc`, or no JSON document at all.
pub open spec fn transcription_outcome(doc: Option<JsonView>) -> Result<
    AudioTranscriptionResponseView,
    AudioTranscriptionErrorView,
> {
    match doc {
        Some(doc) => match AudioTranscriptionApiResponseView::from_json(doc) {
            Some(answer) => answer.outcome(),
            None => Err(AudioTranscriptionErrorView::ReqwestError(DECODE_FAILURE@)),
        },
        None => Err(AudioTranscriptionErrorView::ReqwestError(DECODE_FAILURE@)),
    }
}

/// The view of the result of a transcription.
pub open spec fn result_view(
    result: Result<AudioTranscriptionResponse, AudioTranscriptionError>,
) -> Result<AudioTranscriptionResponseView, AudioTranscriptionErrorView> {
    match result {
        Ok(r) => Ok(r@),
        Err(e) => Err(e@),
    }
}

impl AudioTranscriptionResponse {
    /// Reads a transcript from a document.
    pub fn from_json(doc: &Json) -> (found: Option<AudioTranscriptionResponse>)
        ensures
            match found {
                Some(r) => AudioTranscriptionResponseView::from_json(doc@) == Some(r@),
                None => AudioTranscriptionResponseView::from_json(doc@) is None,
            },
    {
        match doc.text_field("text") {
            Some(text) => Some(AudioTranscriptionResponse { text: text.clone() }),
            None => None,
        }
    }
}

impl ErrorDetail {
    /// Reads a validation error from a document.
    pub fn from_json(doc: &Json) -> (found: Option<ErrorDetail>)
        ensures
            match found {
                Some(d) => ErrorDetailView::from_json(doc@) == Some(d@),
                None => ErrorDetailView::from_json(doc@) is None,
            },
    {
        let loc = match doc.get("loc") {
            Some(loc) => match loc.as_texts() {
                Some(loc) => loc,
                None => { return None; },
            },
            None => { return None; },
        };
        let msg = match doc.text_field("msg") {
            Some(msg) => msg.clone(),
            None => { return None; },
        };
        let error_type = match doc.text_field("type") {
            Some(error_type) => error_type.clone(),
            None => { return None; },
        };
        Some(ErrorDetail { loc, msg, error_type })
    }

    /// The line that reports this error.
    pub fn render(&self) -> (line: String)
        ensures
            line@ == self@.rendering(),
    {
        let mut line = join(&self.loc, ".");
        line.append(": ");
        line.append(self.msg.as_str());
        line
    }
}

impl ErrorResponse {
    /// Reads an error answer from a document, the simple shape first.
    pub fn from_json(doc: &Json) -> (found: Option<ErrorResponse>)
        ensures
            match found {
                Some(e) => ErrorResponseView::from_json(doc@) == Some(e@),
                None => ErrorResponseView::from_json(doc@) is None,
            },
    {
        let detail = match doc.get("detail") {
            Some(detail) => detail,
            None => { return None; },
        };
        if let Some(text) = detail.as_text() {
            return Some(ErrorResponse::Simple { detail: text.clone() });
        }
        let items = match detail.as_items() {
            Some(items) => items,
            None => { return None; },
        };
        let ghost views = items_view(items@);
        let mut details: Vec<ErrorDetail> = Vec::new();
        let mut i: usize = 0;
        while i < items.len()
            invariant
                i <= items.len(),
                views == items_view(items@),
                doc@.field("detail"@) == Some(JsonView::Array(views)),
                details.len() == i,
                forall|k: int|
                    0 <= k < i ==> ErrorDetailView::from_json(views[k]) == Some(
                        (#[trigger] details[k])@,
                    ),
            decreases items.len() - i,
        {
            match ErrorDetail::from_json(&items[i]) {
                Some(d) => details.push(d),
                None => {
                    assert(ErrorDetailView::from_json(views[i as int]) is None);
                    return None;
                },
            }
            i = i + 1;
        }
        proof {
            assert forall|k: int| 0 <= k < views.len() implies ErrorDetailView::from_json(
                #[trigger] views[k],
            ) is Some by {
                assert(ErrorDetailView::from_json(views[k]) == Some(details[k]@));
            }
            assert(details_from_json(views)->0 =~= details_view(details@)) by {
                assert forall|k: int| 0 <= k < views.len() implies ErrorDetailView::from_json(
                    views[k],
                )->0 == details[k]@ by {
                    assert(ErrorDetailView::from_json(views[k]) == Some(details[k]@));
                }
            }
        }
        Some(ErrorResponse::Detailed { detail: details })
    }

    /// The one message this error answer is reported by.
    pub fn message(&self) -> (text: String)
        ensures
            text@ == self@.message(),
    {
        match self {
            ErrorResponse::Simple { detail } => detail.clone(),
            ErrorResponse::Detailed { detail } => {
                let mut lines: Vec<String> = Vec::new();
                let mut i: usize = 0;
                while i < detail.len()
                    invariant
                        i <= detail.len(),
                        lines.len() == i,
                        forall|k: int| 0 <= k < i ==> (#[trigger] lines[k])@ == detail[k]@.rendering(),
                    decreases detail.len() - i,
                {
                    lines.push(detail[i].render());
                    i = i + 1;
                }
                assert(texts_view(lines@) =~= renderings(details_view(detail@)));
                join(&lines, ", ")
            },
        }
    }
}

impl AudioTranscriptionApiResponse {
    /// Reads an answer from a document: a transcript if the document holds
    /// one, else a simple error, else a detailed error.
    pub fn from_json(doc: &Json) -> (found: Option<AudioTranscriptionApiResponse>)
        ensures
            match found {
                Some(a) => AudioTranscriptionApiResponseView::from_json(doc@) == Some(a@),
                None => AudioTranscriptionApiResponseView::from_json(doc@) is None,
            },
    {
        match AudioTranscriptionResponse::from_json(doc) {
            Some(r) => Some(AudioTranscriptionApiResponse::TranscriptionResponse(r)),
            None => match ErrorResponse::from_json(doc) {
                Some(e) => Some(AudioTranscriptionApiResponse::ErrorResponse(e)),
                None => None,
            },
        }
    }

    /// What the caller of a transcription gets for this answer.
    pub fn into_result(self) -> (result: Result<
        AudioTranscriptionResponse,
        AudioTranscriptionError,
    >)
        ensures
            result_view(result) == self@.outcome(),
    {
        match self {
            AudioTranscriptionApiResponse::TranscriptionResponse(r) => Ok(r),
            AudioTranscriptionApiResponse::ErrorResponse(e) => Err(
                AudioTranscriptionError::ErrorResponse(e.message()),
            ),
        }
    }
}

/// What the caller of a transcription gets when the answer's body held `doc`,
/// or held no JSON document.
pub fn transcription_result(doc: Option<Json>) -> (result: Result<
    AudioTranscriptionResponse,
    AudioTranscriptionError,
>)
    ensures
        result_view(result) == transcription_outcome(
            match doc {
                Some(d) => Some(d@),
                None => None,
            },
        ),
{
    match doc {
        Some(d) => match AudioTranscriptionApiResponse::from_json(&d) {
            Some(answer) => answer.into_result(),
            None => Err(AudioTranscriptionError::ReqwestError(DECODE_FAILURE.to_owned())),
        },
        None => Err(AudioTranscriptionError::ReqwestError(DECODE_FAILURE.to_owned())),
    }
}

/// Decodes the body of the service's answer to a transcription request.
pub fn decode_transcription(body: &[u8]) -> (result: Result<
    AudioTranscriptionResponse,
    AudioTranscriptionError,
>)
    ensures
        result_view(result) == transcription_outcome(parsed(body@)),
{
    transcription_result(Json::parse(body))
}

/// The model a request names unless the caller names another.
pub const DEFAULT_TRANSCRIPTION_MODEL: &'static str = "openai/whisper-large-v3-turbo";

/// The response format a request names unless the caller names another.
pub const DEFAULT_RESPONSE_FORMAT: &'static str = "json";

/// The characters of a path as `Path::to_string_lossy` gives them.
pub uninterp spec fn path_text(path: std::path::PathBuf) -> Seq<char>;

/// `Path::to_string_lossy`, as an owned string. The text depends on the path
/// alone.
#[verifier::external_body]
fn lossy_text(path: &std::path::PathBuf) -> (text: String)
    ensures
        text@ == path_text(*path),
{
    path.to_string_lossy().into_owned()
}

/// A request to transcribe audio. `temperature` is the decimal text of the
/// sampling temperature, as it goes on the wire.
#[derive(Debug)]
pub struct AudioTranscriptionRequest {
    /// The language of the audio, in ISO-639-1.
    pub language: Option<String>,
    /// The transcription model.
    pub model: String,
    /// A prompt that guides the transcript's style.
    pub prompt: Option<String>,
    /// The format the answer is asked in.
    pub response_format: String,
    /// Where the audio comes from.
    pub source: FileSource,
    /// The sampling temperature, between 0 and 1, as decimal text.
    pub temperature: Option<String>,
    /// The granularities of the timestamps asked for.
    pub timestamp_granularities: Option<Vec<String>>,
}

/// The names and values of `pairs`.
pub open spec fn pairs_view(pairs: Seq<(String, String)>) -> Seq<(Seq<char>, Seq<char>)> {
    Seq::new(pairs.len(), |i: int| (pairs[i].0@, pairs[i].1@))
}

/// One text field per pair, in order.
pub open spec fn text_fields(pairs: Seq<(Seq<char>, Seq<char>)>) -> Seq<(Seq<char>, PartView)> {
    Seq::new(pairs.len(), |i: int| text_field(pairs[i].0, pairs[i].1))
}

/// The pair for an optional value: one pair if it is there, none if not.
pub open spec fn optional_pair(name: Seq<char>, value: Option<String>) -> Seq<
    (Seq<char>, Seq<char>),
> {
    match value {
        Some(v) => seq![(name, v@)],
        None => Seq::empty(),
    }
}

/// One pair under `name` for each of `values`, in order.
pub open spec fn repeated_pairs(name: Seq<char>, values: Seq<Seq<char>>) -> Seq<
    (Seq<char>, Seq<char>),
> {
    Seq::new(values.len(), |i: int| (name, values[i]))
}

/// What becomes of a request's audio source once it is known whether the
/// file it may name exists.
pub enum Upload {
    /// The form is complete: the audio was held in memory.
    Ready(reqwest::multipart::Form),
    /// The audio is a file that exists. `head` holds the fields that go
    /// before it; the file at `path` is to be added under the name `file`,
    /// and the text fields of `tail` after it with [`append_text_fields`].
    Streamed { head: reqwest::multipart::Form, path: std::path::PathBuf, tail: Vec<(String, String)> },
}

impl AudioTranscriptionRequest {
    /// A request for `source` with the default model and response format and
    /// nothing optional.
    pub fn new(source: FileSource) -> (request: AudioTranscriptionRequest)
        ensures
            request.source == source,
            request.model@ == DEFAULT_TRANSCRIPTION_MODEL@,
            request.response_format@ == DEFAULT_RESPONSE_FORMAT@,
            request.language is None,
            request.prompt is None,
            request.temperature is None,
            request.timestamp_granularities is None,
    {
        AudioTranscriptionRequest {
            language: None,
            model: DEFAULT_TRANSCRIPTION_MODEL.to_owned(),
            prompt: None,
            response_format: DEFAULT_RESPONSE_FORMAT.to_owned(),
            source,
            temperature: None,
            timestamp_granularities: None,
        }
    }

    /// The text fields that go before the audio: the model and the response
    /// format.
    pub open spec fn leading(&self) -> Seq<(Seq<char>, Seq<char>)> {
        seq![("model"@, self.model@), ("response_format"@, self.response_format@)]
    }

    /// The text fields that go after the audio: language, prompt and
    /// temperature, each only if it is there, then one field named
    /// `timestamp_granularities[]` for each granularity, in the list's order.
    pub open spec fn trailing(&self) -> Seq<(Seq<char>, Seq<char>)> {
        optional_pair("language"@, self.language) + optional_pair("prompt"@, self.prompt)
            + optional_pair("temperature"@, self.temperature)
            + match self.timestamp_granularities {
            Some(granularities) => repeated_pairs(
                "timestamp_granularities[]"@,
                texts_view(granularities@),
            ),
            None => Seq::empty(),
        }
    }

    /// The text fields that go before the audio.
    pub fn leading_fields(&self) -> (fields: Vec<(String, String)>)
        ensures
            pairs_view(fields@) == self.leading(),
    {
        let mut fields: Vec<(String, String)> = Vec::new();
        fields.push(("model".to_owned(), self.model.clone()));
        fields.push(("response_format".to_owned(), self.response_format.clone()));
        assert(pairs_view(fields@) =~= self.leading());
        fields
    }

    /// The text fields that go after the audio.
    pub fn trailing_fields(&self) -> (fields: Vec<(String, String)>)
        ensures
            pairs_view(fields@) == self.trailing(),
    {
        let mut fields: Vec<(String, String)> = Vec::new();
        if let Some(language) = &self.language {
            fields.push(("language".to_owned(), language.clone()));
        }
        assert(pairs_view(fields@) =~= optional_pair("language"@, self.language));
        if let Some(prompt) = &self.prompt {
            fields.push(("prompt".to_owned(), prompt.clone()));
        }
        assert(pairs_view(fields@) =~= optional_pair("language"@, self.language) + optional_pair(
            "prompt"@,
            self.prompt,
        ));
        if let Some(temperature) = &self.temperature {
            fields.push(("temperature".to_owned(), temperature.clone()));
        }
        let ghost fixed = optional_pair("language"@, self.language) + optional_pair(
            "prompt"@,
            self.prompt,
        ) + optional_pair("temperature"@, self.temperature);
        assert(pairs_view(fields@) =~= fixed);
        if let Some(granularities) = &self.timestamp_granularities {
            let ghost all = texts_view(granularities@);
            let mut i: usize = 0;
            while i < granularities.len()
                invariant
                    i <= granularities.len(),
                    all == texts_view(granularities@),
                    pairs_view(fields@) =~= fixed + repeated_pairs(
                        "timestamp_granularities[]"@,
                        all.take(i as int),
                    ),
                decreases granularities.len() - i,
            {
                let ghost before = pairs_view(fields@);
                fields.push(("timestamp_granularities[]".to_owned(), granularities[i].clone()));
                proof {
                    let name = "timestamp_granularities[]"@;
                    assert(pairs_view(fields@) =~= before.push((name, all[i as int])));
                    assert(repeated_pairs(name, all.take(i + 1)) =~= repeated_pairs(
                        name,
                        all.take(i as int),
                    ).push((name, all[i as int])));
                }
                i = i + 1;
            }
            assert(all.take(granularities.len() as int) =~= all);
        } else {
            assert(fixed + Seq::<(Seq<char>, Seq<char>)>::empty() =~= fixed);
        }
        fields
    }

    /// Starts the form of this request and settles its audio source.
    /// `path_exists` says whether the file that the source names exists; it
    /// is not looked at where the audio is held in memory.
    ///
    /// A file that does not exist fails the request before anything is sent.
    pub fn into_upload(self, path_exists: bool) -> (step: Result<Upload, AudioTranscriptionError>)
        ensures
            match self.source {
                FileSource::Filepath(path) => if path_exists {
                    &&& step matches Ok(Upload::Streamed { head, path: p, tail })
                    &&& form_fields(head) == text_fields(self.leading())
                    &&& p == path
                    &&& pairs_view(tail@) == self.trailing()
                } else {
                    &&& step matches Err(AudioTranscriptionError::FileNotFoundError(text))
                    &&& text@ == path_text(path)
                },
                FileSource::Bytes { buffer, file_name } => {
                    &&& step matches Ok(Upload::Ready(form))
                    &&& form_fields(form) == text_fields(self.leading()).push(
                        file_field("file"@, buffer@, file_name@),
                    ) + text_fields(self.trailing())
                },
            },
    {
        let leading = self.leading_fields();
        let tail = self.trailing_fields();
        let head = append_text_fields(new_form(), &leading);
        assert(Seq::<(Seq<char>, PartView)>::empty() + text_fields(self.leading()) =~= text_fields(
            self.leading(),
        ));
        match self.source {
            FileSource::Filepath(path) => {
                if path_exists {
                    Ok(Upload::Streamed { head, path, tail })
                } else {
                    Err(AudioTranscriptionError::FileNotFoundError(lossy_text(&path)))
                }
            },
            FileSource::Bytes { buffer, file_name } => {
                let part = with_file_name(bytes_part(buffer), file_name);
                let form = add_part(head, "file", part);
                Ok(Upload::Ready(append_text_fields(form, &tail)))
            },
        }
    }
}

/// Appends one text field per pair of `fields`, in order, after the fields
/// that `form` holds.
pub fn append_text_fields(form: reqwest::multipart::Form, fields: &Vec<(String, String)>) -> (out:
    reqwest::multipart::Form)
    ensures
        form_fields(out) == form_fields(form) + text_fields(pairs_view(fields@)),
{
    let ghost before = form_fields(form);
    let ghost added = text_fields(pairs_view(fields@));
    let mut out = form;
    let mut i: usize = 0;
    assert(before + added.take(0) =~= before);
    while i < fields.len()
        invariant
            i <= fields.len(),
            added == text_fields(pairs_view(fields@)),
            form_fields(out) == before + added.take(i as int),
        decreases fields.len() - i,
    {
        out = add_text(out, fields[i].0.as_str(), fields[i].1.as_str());
        assert((before + added.take(i as int)).push(added[i as int]) =~= before + added.take(
            i + 1,
        ));
        i = i + 1;
    }
    assert(added.take(fields.len() as int) =~= added);
    out
}

} // verus!
