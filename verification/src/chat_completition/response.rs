//! The answer to a chat completion request and its decoding.

use crate::chat_completition::messages::{Message, MessageView};
use crate::codec::{DECODE_FAILURE, parsed};
use crate::json::{
    items_view, Json, JsonView, lemma_member_push, lemma_member_with_optional, new_items,
    new_members, no_members, Number, NumberView, optional_string, push_item, push_member, read_all,
    with_optional,
};
use crate::text::{decimal, decimal_text, optional_text_view};
use vstd::string::StringExecFns;
use vstd::prelude::*;

verus! {

/// One completion.
#[derive(Debug, Clone, PartialEq, Eq)]
pub struct Choice {
    pub index: i32,
    pub message: Message,
    pub finish_reason: String,
}

/// The view of a [`Choice`].
pub struct ChoiceView {
    pub index: i32,
    pub message: MessageView,
    pub finish_reason: Seq<char>,
}

impl View for Choice {
    type V = ChoiceView;

    open spec fn view(&self) -> ChoiceView {
        ChoiceView {
            index: self.index,
            message: self.message@,
            finish_reason: self.finish_reason@,
        }
    }
}

/// The views of `choices`, one by one.
pub open spec fn choices_view(choices: Seq<Choice>) -> Seq<ChoiceView> {
    Seq::new(choices.len(), |i: int| choices[i]@)
}

/// How many tokens an exchange took.
#[derive(Debug, Clone, Copy, PartialEq, Eq)]
pub struct Usage {
    pub prompt_tokens: i32,
    pub total_tokens: i32,
    pub completion_tokens: i32,
}

/// The answer to a chat completion request.
#[derive(Debug, Clone, PartialEq, Eq)]
pub struct ChatCompletionResponse {
    pub id: Option<String>,
    pub object: Option<String>,
    pub created: Option<i64>,
    pub model: Option<String>,
    pub choices: Vec<Choice>,
    pub usage: Option<Usage>,
}

/// The view of a [`ChatCompletionResponse`].
pub struct ChatCompletionResponseView {
    pub id: Option<Seq<char>>,
    pub object: Option<Seq<char>>,
    pub created: Option<i64>,
    pub model: Option<Seq<char>>,
    pub choices: Seq<ChoiceView>,
    pub usage: Option<Usage>,
}

impl View for ChatCompletionResponse {
    type V = ChatCompletionResponseView;

    open spec fn view(&self) -> ChatCompletionResponseView {
        ChatCompletionResponseView {
            id: optional_text_view(self.id),
            object: optional_text_view(self.object),
            created: self.created,
            model: optional_text_view(self.model),
            choices: choices_view(self.choices@),
            usage: self.usage,
        }
    }
}

/// Why a chat completion failed: the exchange with the service failed, or
/// its answer was no chat completion. The payload is the failure's message.
#[derive(Debug, Clone, PartialEq, Eq)]
pub enum ChatCompletionError {
    ReqwestError(String),
}

impl ChatCompletionError {
    /// The message of this error.
    pub fn describe(&self) -> (text: String)
        ensures
            self matches ChatCompletionError::ReqwestError(m) && text@ == "Request errored "@
                + m@,
    {
        match self {
            ChatCompletionError::ReqwestError(m) => {
                let mut text = "Request errored ".to_owned();
                text.append(m.as_str());
                text
            },
        }
    }
}

/// The number that stands for a signed integer: unsigned from zero up,
/// negative below.
pub open spec fn signed_json(value: int) -> JsonView {
    if value >= 0 {
        JsonView::Number(NumberView::Unsigned(value as u64))
    } else {
        JsonView::Number(NumberView::Negative(value as i64))
    }
}

impl Usage {
    /// The object that stands for this usage.
    pub open spec fn json(self) -> JsonView {
        JsonView::Object(
            no_members().push(("prompt_tokens"@, signed_json(self.prompt_tokens as int))).push(
                ("total_tokens"@, signed_json(self.total_tokens as int)),
            ).push(("completion_tokens"@, signed_json(self.completion_tokens as int))),
        )
    }

    /// The usage that `doc` holds: its three members are integers of 32
    /// bits.
    pub open spec fn of_json(doc: JsonView) -> Option<Usage> {
        match (
            doc.integer_field("prompt_tokens"@, i32::MIN as int, i32::MAX as int),
            doc.integer_field("total_tokens"@, i32::MIN as int, i32::MAX as int),
            doc.integer_field("completion_tokens"@, i32::MIN as int, i32::MAX as int),
        ) {
            (Some(prompt), Some(total), Some(completion)) => Some(
                Usage {
                    prompt_tokens: prompt as i32,
                    total_tokens: total as i32,
                    completion_tokens: completion as i32,
                },
            ),
            _ => None,
        }
    }

    /// Reading what was written gives the usage back.
    pub proof fn lemma_round_trip(self)
        ensures
            Usage::of_json(self.json()) == Some(self),
    {
        broadcast use lemma_member_push;

        lemma_response_keys();
    }

    /// Writes the usage as a JSON object.
    pub fn to_json(&self) -> (doc: Json)
        ensures
            doc@ == self.json(),
    {
        let mut members = new_members();
        push_member(&mut members, "prompt_tokens", Json::integer(self.prompt_tokens as i128));
        push_member(&mut members, "total_tokens", Json::integer(self.total_tokens as i128));
        push_member(
            &mut members,
            "completion_tokens",
            Json::integer(self.completion_tokens as i128),
        );
        Json::object(members)
    }

    /// Reads a usage from a document.
    pub fn from_json(doc: &Json) -> (found: Option<Usage>)
        ensures
            found == Usage::of_json(doc@),
    {
        let prompt_tokens = match doc.integer_field(
            "prompt_tokens",
            i32::MIN as i128,
            i32::MAX as i128,
        ) {
            Some(i) => i as i32,
            None => { return None; },
        };
        let total_tokens = match doc.integer_field(
            "total_tokens",
            i32::MIN as i128,
            i32::MAX as i128,
        ) {
            Some(i) => i as i32,
            None => { return None; },
        };
        let completion_tokens = match doc.integer_field(
            "completion_tokens",
            i32::MIN as i128,
            i32::MAX as i128,
        ) {
            Some(i) => i as i32,
            None => { return None; },
        };
        Some(Usage { prompt_tokens, total_tokens, completion_tokens })
    }
}

/// What is known of the keys of an answer: enough to tell them apart.
pub proof fn lemma_response_keys()
    ensures
        "prompt_tokens"@.len() == 13,
        "total_tokens"@.len() == 12,
        "completion_tokens"@.len() == 17,
        "index"@.len() == 5,
        "message"@.len() == 7,
        "finish_reason"@.len() == 13,
        "id"@.len() == 2,
        "object"@.len() == 6,
        "created"@.len() == 7,
        "model"@.len() == 5,
        "choices"@.len() == 7,
        "usage"@.len() == 5,
        "created"@[1] == 'r',
        "choices"@[1] == 'h',
        "model"@[0] == 'm',
        "usage"@[0] == 'u',
{
    reveal_strlit("prompt_tokens");
    reveal_strlit("total_tokens");
    reveal_strlit("completion_tokens");
    reveal_strlit("index");
    reveal_strlit("message");
    reveal_strlit("finish_reason");
    reveal_strlit("id");
    reveal_strlit("object");
    reveal_strlit("created");
    reveal_strlit("model");
    reveal_strlit("choices");
    reveal_strlit("usage");
}

impl ChoiceView {
    /// The object that stands for this choice.
    pub open spec fn to_json(self) -> JsonView {
        JsonView::Object(
            no_members().push(("index"@, signed_json(self.index as int))).push(
                ("message"@, self.message.to_json()),
            ).push(("finish_reason"@, JsonView::String(self.finish_reason))),
        )
    }

    /// The choice that `doc` holds: member `index` is an integer of 32 bits,
    /// member `message` holds a message, and member `finish_reason` is a
    /// string.
    pub open spec fn from_json(doc: JsonView) -> Option<ChoiceView> {
        match (
            doc.integer_field("index"@, i32::MIN as int, i32::MAX as int),
            doc.field("message"@),
            doc.text_field("finish_reason"@),
        ) {
            (Some(index), Some(m), Some(finish_reason)) => match MessageView::from_json(m) {
                Some(message) => Some(ChoiceView { index: index as i32, message, finish_reason }),
                None => None,
            },
            _ => None,
        }
    }
}

impl ChoiceView {
    /// Reading what was written gives the choice back.
    pub proof fn lemma_round_trip(self)
        ensures
            ChoiceView::from_json(self.to_json()) == Some(self),
    {
        broadcast use lemma_member_push;

        lemma_response_keys();
        self.message.lemma_round_trip();
    }
}

/// The array that stands for `choices`.
pub open spec fn choices_json(choices: Seq<ChoiceView>) -> JsonView {
    JsonView::Array(Seq::new(choices.len(), |i: int| choices[i].to_json()))
}

/// The choices that member `choices` of `doc` holds: the member is an array
/// and every item holds a choice.
pub open spec fn choices_from_json(doc: JsonView) -> Option<Seq<ChoiceView>> {
    match doc.field("choices"@) {
        Some(JsonView::Array(items)) => read_all(items, |d: JsonView| ChoiceView::from_json(d)),
        _ => None,
    }
}

/// The usage that member `usage` of `doc` holds: none where the member is
/// missing or `null`; the outer `None` where it is there and holds no usage.
pub open spec fn usage_from_json(doc: JsonView) -> Option<Option<Usage>> {
    match doc.present("usage"@) {
        None => Some(None),
        Some(u) => match Usage::of_json(u) {
            Some(usage) => Some(Some(usage)),
            None => None,
        },
    }
}

/// An optional integer of 64 bits, as a number.
pub open spec fn optional_signed_json(value: Option<i64>) -> Option<JsonView> {
    match value {
        Some(v) => Some(signed_json(v as int)),
        None => None,
    }
}

/// An optional integer of 64 bits that was read.
pub open spec fn optional_i64(value: Option<Option<int>>) -> Option<Option<i64>> {
    match value {
        Some(Some(v)) => Some(Some(v as i64)),
        Some(None) => Some(None),
        None => None,
    }
}

impl ChatCompletionResponseView {
    /// The object that stands for this answer. A field that holds nothing
    /// has no member.
    pub open spec fn to_json(self) -> JsonView {
        let m = with_optional(no_members(), "id"@, optional_string(self.id));
        let m = with_optional(m, "object"@, optional_string(self.object));
        let m = with_optional(m, "created"@, optional_signed_json(self.created));
        let m = with_optional(m, "model"@, optional_string(self.model));
        let m = m.push(("choices"@, choices_json(self.choices)));
        JsonView::Object(
            with_optional(
                m,
                "usage"@,
                match self.usage {
                    Some(usage) => Some(usage.json()),
                    None => None,
                },
            ),
        )
    }

    /// The answer that `doc` holds: member `choices` is an array of choices;
    /// members `id`, `object` and `model` are strings, member `created` is an
    /// integer of 64 bits and member `usage` holds a usage, each unless it is
    /// missing or `null`.
    pub open spec fn from_json(doc: JsonView) -> Option<ChatCompletionResponseView> {
        match (
            doc.optional_text("id"@),
            doc.optional_text("object"@),
            optional_i64(doc.optional_integer("created"@, i64::MIN as int, i64::MAX as int)),
            doc.optional_text("model"@),
            choices_from_json(doc),
            usage_from_json(doc),
        ) {
            (Some(id), Some(object), Some(created), Some(model), Some(choices), Some(usage)) => {
                Some(ChatCompletionResponseView { id, object, created, model, choices, usage })
            },
            _ => None,
        }
    }
}

impl ChatCompletionResponseView {
    /// An answer that is written as JSON and read back is the answer that
    /// was written.
    pub proof fn lemma_round_trip(self)
        ensures
            ChatCompletionResponseView::from_json(self.to_json()) == Some(self),
    {
        broadcast use lemma_member_push, lemma_member_with_optional;

        lemma_response_keys();
        let items = choices_json(self.choices)->Array_0;
        let read = |d: JsonView| ChoiceView::from_json(d);
        assert forall|i: int| 0 <= i < items.len() implies (#[trigger] read(items[i])) == Some(
            self.choices[i],
        ) by {
            self.choices[i].lemma_round_trip();
        }
        assert(read_all(items, read)->0 =~= self.choices);
        if let Some(usage) = self.usage {
            usage.lemma_round_trip();
        }
    }
}

/// What the caller of a chat completion gets when the answer's body holds
/// `doc`, or no JSON document at all.
pub open spec fn chat_completion_outcome(doc: Option<JsonView>) -> Result<
    ChatCompletionResponseView,
    Seq<char>,
> {
    match doc {
        Some(doc) => match ChatCompletionResponseView::from_json(doc) {
            Some(answer) => Ok(answer),
            None => Err(DECODE_FAILURE@),
        },
        None => Err(DECODE_FAILURE@),
    }
}

/// The view of the result of a chat completion.
pub open spec fn chat_result_view(result: Result<ChatCompletionResponse, ChatCompletionError>) -> Result<
    ChatCompletionResponseView,
    Seq<char>,
> {
    match result {
        Ok(answer) => Ok(answer@),
        Err(ChatCompletionError::ReqwestError(message)) => Err(message@),
    }
}

impl Choice {
    /// Writes the choice as a JSON object.
    pub fn to_json(&self) -> (doc: Json)
        ensures
            doc@ == self@.to_json(),
    {
        let mut members = new_members();
        push_member(&mut members, "index", Json::integer(self.index as i128));
        push_member(&mut members, "message", self.message.to_json());
        push_member(&mut members, "finish_reason", Json::text(self.finish_reason.as_str()));
        Json::object(members)
    }

    /// Reads a choice from a document.
    pub fn from_json(doc: &Json) -> (found: Option<Choice>)
        ensures
            match found {
                Some(c) => ChoiceView::from_json(doc@) == Some(c@),
                None => ChoiceView::from_json(doc@) is None,
            },
    {
        let index = match doc.integer_field("index", i32::MIN as i128, i32::MAX as i128) {
            Some(i) => i as i32,
            None => { return None; },
        };
        let message = match doc.get("message") {
            Some(m) => match Message::from_json(m) {
                Some(message) => message,
                None => { return None; },
            },
            None => { return None; },
        };
        let finish_reason = match doc.text_field("finish_reason") {
            Some(reason) => reason.clone(),
            None => { return None; },
        };
        Some(Choice { index, message, finish_reason })
    }
}

/// Writes choices as a JSON array.
pub fn choices_to_json(choices: &Vec<Choice>) -> (doc: Json)
    ensures
        doc@ == choices_json(choices_view(choices@)),
{
    let ghost wanted = choices_json(choices_view(choices@))->Array_0;
    let mut items = new_items();
    let mut i: usize = 0;
    assert(wanted.take(0) =~= Seq::<JsonView>::empty());
    while i < choices.len()
        invariant
            i <= choices.len(),
            wanted == choices_json(choices_view(choices@))->Array_0,
            items_view(items@) == wanted.take(i as int),
        decreases choices.len() - i,
    {
        push_item(&mut items, choices[i].to_json());
        assert(wanted.take(i as int).push(wanted[i as int]) =~= wanted.take(i + 1));
        i = i + 1;
    }
    assert(wanted.take(choices.len() as int) =~= wanted);
    Json::array(items)
}

/// Reads the choices of member `choices`.
pub fn choices_of(doc: &Json) -> (found: Option<Vec<Choice>>)
    ensures
        match found {
            Some(choices) => choices_from_json(doc@) == Some(choices_view(choices@)),
            None => choices_from_json(doc@) is None,
        },
{
    let member = match doc.get("choices") {
        Some(member) => member,
        None => { return None; },
    };
    let items = match member.as_items() {
        Some(items) => items,
        None => { return None; },
    };
    let ghost views = items_view(items@);
    let ghost read = |d: JsonView| ChoiceView::from_json(d);
    let mut choices: Vec<Choice> = Vec::new();
    let mut i: usize = 0;
    while i < items.len()
        invariant
            i <= items.len(),
            views == items_view(items@),
            read == (|d: JsonView| ChoiceView::from_json(d)),
            doc@.field("choices"@) == Some(JsonView::Array(views)),
            choices.len() == i,
            forall|k: int| 0 <= k < i ==> read(views[k]) == Some((#[trigger] choices[k])@),
        decreases items.len() - i,
    {
        match Choice::from_json(&items[i]) {
            Some(choice) => choices.push(choice),
            None => {
                assert(read(views[i as int]) is None);
                return None;
            },
        }
        i = i + 1;
    }
    proof {
        assert forall|k: int| 0 <= k < views.len() implies (#[trigger] read(views[k])) is Some by {
            assert(read(views[k]) == Some(choices[k]@));
        }
        assert(read_all(views, read)->0 =~= choices_view(choices@)) by {
            assert forall|k: int| 0 <= k < views.len() implies read(views[k])->0 == choices[k]@ by {
                assert(read(views[k]) == Some(choices[k]@));
            }
        }
    }
    Some(choices)
}

impl ChatCompletionResponse {
    /// Writes the answer as a JSON object.
    pub fn to_json(&self) -> (doc: Json)
        ensures
            doc@ == self@.to_json(),
    {
        let mut members = new_members();
        if let Some(id) = &self.id {
            push_member(&mut members, "id", Json::text(id.as_str()));
        }
        if let Some(object) = &self.object {
            push_member(&mut members, "object", Json::text(object.as_str()));
        }
        if let Some(created) = &self.created {
            push_member(&mut members, "created", Json::integer(*created as i128));
        }
        if let Some(model) = &self.model {
            push_member(&mut members, "model", Json::text(model.as_str()));
        }
        push_member(&mut members, "choices", choices_to_json(&self.choices));
        if let Some(usage) = &self.usage {
            push_member(&mut members, "usage", usage.to_json());
        }
        Json::object(members)
    }

    /// Reads an answer from a document.
    pub fn from_json(doc: &Json) -> (found: Option<ChatCompletionResponse>)
        ensures
            match found {
                Some(answer) => ChatCompletionResponseView::from_json(doc@) == Some(answer@),
                None => ChatCompletionResponseView::from_json(doc@) is None,
            },
    {
        let id = match doc.optional_text("id") {
            Some(id) => id,
            None => { return None; },
        };
        let object = match doc.optional_text("object") {
            Some(object) => object,
            None => { return None; },
        };
        let created = match doc.optional_integer("created", i64::MIN as i128, i64::MAX as i128) {
            Some(Some(created)) => Some(created as i64),
            Some(None) => None,
            None => { return None; },
        };
        let model = match doc.optional_text("model") {
            Some(model) => model,
            None => { return None; },
        };
        let choices = match choices_of(doc) {
            Some(choices) => choices,
            None => { return None; },
        };
        let usage = match doc.present("usage") {
            None => None,
            Some(u) => match Usage::from_json(u) {
                Some(usage) => Some(usage),
                None => { return None; },
            },
        };
        Some(ChatCompletionResponse { id, object, created, model, choices, usage })
    }
}

/// What the caller of a chat completion gets when the answer's body held
/// `doc`, or held no JSON document.
pub fn chat_completion_result(doc: Option<Json>) -> (result: Result<
    ChatCompletionResponse,
    ChatCompletionError,
>)
    ensures
        chat_result_view(result) == chat_completion_outcome(
            match doc {
                Some(d) => Some(d@),
                None => None,
            },
        ),
{
    match doc {
        Some(d) => match ChatCompletionResponse::from_json(&d) {
            Some(answer) => Ok(answer),
            None => Err(ChatCompletionError::ReqwestError(DECODE_FAILURE.to_owned())),
        },
        None => Err(ChatCompletionError::ReqwestError(DECODE_FAILURE.to_owned())),
    }
}

/// What an answer with a status that is not a success is reported as: that
/// the status is an error, with the status in decimal between brackets.
pub open spec fn status_failure(status: u16) -> Seq<char> {
    "HTTP status error ("@ + decimal_text(status as nat) + ")"@
}

/// What the caller of a chat completion gets for an answer with `status`
/// whose body holds `doc`, or no JSON document at all. A status outside 200
/// to 299 is a failure of the exchange whatever the body holds, even where
/// it holds a chat completion; otherwise the body decides.
pub open spec fn chat_reply_outcome(status: u16, doc: Option<JsonView>) -> Result<
    ChatCompletionResponseView,
    Seq<char>,
> {
    if 200 <= status <= 299 {
        chat_completion_outcome(doc)
    } else {
        Err(status_failure(status))
    }
}

/// What the caller of a chat completion gets for the service's answer, by
/// its status and its body. Only an answer with a status from 200 to 299 is
/// decoded.
pub fn chat_completion_reply(status: u16, body: &[u8]) -> (result: Result<
    ChatCompletionResponse,
    ChatCompletionError,
>)
    ensures
        chat_result_view(result) == chat_reply_outcome(status, parsed(body@)),
{
    if 200 <= status && status <= 299 {
        decode_chat_completion(body)
    } else {
        let mut message = "HTTP status error (".to_owned();
        message.append(decimal(status).as_str());
        message.append(")");
        Err(ChatCompletionError::ReqwestError(message))
    }
}

/// Decodes the body of the service's answer to a chat completion request.
/// A body that is no chat completion, such as the body of an error answer,
/// is a failure of the exchange.
pub fn decode_chat_completion(body: &[u8]) -> (result: Result<
    ChatCompletionResponse,
    ChatCompletionError,
>)
    ensures
        chat_result_view(result) == chat_completion_outcome(parsed(body@)),
{
    chat_completion_result(Json::parse(body))
}

} // verus!
