//! The chat completion request and its JSON body.

use crate::chat_completition::messages::{
    lemma_messages_round_trip, Message, messages_json, messages_to_json, messages_view, MessageView,
};
use crate::chat_completition::tools::{
    ChatTool, ResponseFormat, tools_json, tools_to_json, tools_view,
};
use crate::codec::{lowered, rendered, same_fields};
use crate::json::{
    items_view, Json, JsonView, lemma_member_push, lemma_member_with_optional, members_view,
    new_items, new_members, no_members, Number, NumberView, optional_string, push_item, push_member,
    read_all, with_optional,
};
use crate::text::{optional_text_view, texts_view};
use vstd::prelude::*;

verus! {

/// Where chat completion requests are posted.
pub const CHAT_COMPLETIONS_API_URL: &'static str =
    "https://api.deepinfra.com/v1/openai/chat/completions";

/// The array of strings that stands for `texts`.
pub open spec fn texts_json(texts: Seq<Seq<char>>) -> JsonView {
    JsonView::Array(Seq::new(texts.len(), |i: int| JsonView::String(texts[i])))
}

/// Writes strings as a JSON array.
pub fn texts_to_json(texts: &Vec<String>) -> (doc: Json)
    ensures
        doc@ == texts_json(texts_view(texts@)),
{
    let ghost wanted = texts_json(texts_view(texts@))->Array_0;
    let mut items = new_items();
    let mut i: usize = 0;
    assert(wanted.take(0) =~= Seq::<JsonView>::empty());
    while i < texts.len()
        invariant
            i <= texts.len(),
            wanted == texts_json(texts_view(texts@))->Array_0,
            items_view(items@) == wanted.take(i as int),
        decreases texts.len() - i,
    {
        push_item(&mut items, Json::text(texts[i].as_str()));
        assert(wanted.take(i as int).push(wanted[i as int]) =~= wanted.take(i + 1));
        i = i + 1;
    }
    assert(wanted.take(texts.len() as int) =~= wanted);
    Json::array(items)
}

/// A sampling parameter that is a real number. A finite value is a JSON
/// number, most often a [`Number::Real`] with the value's decimal text. A
/// value that is not finite is no JSON number, and is sent as `null`.
#[derive(Debug, Clone, PartialEq, Eq)]
pub enum Parameter {
    Finite(Number),
    NotFinite,
}

impl Parameter {
    /// The member value that stands for this parameter: its number, or
    /// `null` where it is not finite.
    pub open spec fn json(&self) -> JsonView {
        match self {
            Parameter::Finite(number) => JsonView::Number(number@),
            Parameter::NotFinite => JsonView::Null,
        }
    }

    /// The parameter with the decimal text `text`.
    pub fn of_text(text: &str) -> (parameter: Parameter)
        ensures
            parameter matches Parameter::Finite(Number::Real(t)) && t@ == text@,
    {
        Parameter::Finite(Number::Real(text.to_owned()))
    }

    /// Writes the parameter as a member value.
    pub fn to_json(&self) -> (doc: Json)
        ensures
            doc@ == self.json(),
    {
        match self {
            Parameter::Finite(number) => Json::Number(number.duplicate()),
            Parameter::NotFinite => Json::Null,
        }
    }
}

/// The model a request names unless the caller names another.
pub const DEFAULT_CHAT_MODEL: &'static str = "deepseek-ai/DeepSeek-V3";

/// A chat completion request. The ranges given are those of the service,
/// which is the one to enforce them: a value outside its range is sent as it
/// is. The sampling parameters that are not integers are [`Parameter`]s.
#[derive(Debug, PartialEq, Eq)]
pub struct ChatCompletionRequest {
    /// Penalty on tokens by how often they occurred so far, from -2 to 2.
    pub frequency_penalty: Parameter,
    /// The most tokens to generate.
    pub max_tokens: u32,
    /// The conversation so far.
    pub messages: Vec<Message>,
    /// The least probability of a token relative to the likeliest, from 0 to
    /// 1; 0 switches it off.
    pub min_p: Parameter,
    /// The model to use.
    pub model: String,
    /// How many completions to return, from 1 to 4.
    pub n: u32,
    /// Penalty on tokens that occurred so far, from -2 to 2.
    pub presence_penalty: Parameter,
    /// Penalty on repetition, from 0.01 to 5; 1 is neutral.
    pub repetition_penalty: Parameter,
    /// The format of the answer.
    pub response_format: Option<ResponseFormat>,
    /// The seed of the random number generator.
    pub seed: Option<u64>,
    /// Up to 16 sequences at which generation stops.
    pub stop: Option<Vec<String>>,
    /// Whether the answer is to be streamed.
    pub stream: bool,
    /// The sampling temperature, from 0 to 2.
    pub temperature: Parameter,
    /// Which function the model is to call, if any: `none`, `auto`, or a
    /// name.
    pub tool_choice: Option<String>,
    /// The tools the model may call.
    pub tools: Option<Vec<ChatTool>>,
    /// Sample from the `top_k` likeliest tokens; 0 switches it off.
    pub top_k: u32,
    /// Nucleus sampling: the probability mass considered, from 0 to 1.
    pub top_p: Parameter,
    /// An identifier of the end user.
    pub user: Option<String>,
}

/// The number that stands for an unsigned integer.
pub open spec fn unsigned_json(value: u64) -> JsonView {
    JsonView::Number(NumberView::Unsigned(value))
}

impl ChatCompletionRequest {
    /// The members of the request's body up to the first optional one.
    pub open spec fn leading_members(&self) -> Seq<(Seq<char>, JsonView)> {
        no_members().push(("frequency_penalty"@, self.frequency_penalty.json())).push(
            ("max_tokens"@, unsigned_json(self.max_tokens as u64)),
        ).push(("messages"@, messages_json(messages_view(self.messages@)))).push(
            ("min_p"@, self.min_p.json()),
        ).push(("model"@, JsonView::String(self.model@))).push(
            ("n"@, unsigned_json(self.n as u64)),
        ).push(("presence_penalty"@, self.presence_penalty.json())).push(
            ("repetition_penalty"@, self.repetition_penalty.json()),
        )
    }

    /// The members of the request's body, in the order of the request's
    /// fields. A field that holds nothing has no member.
    pub open spec fn members(&self) -> Seq<(Seq<char>, JsonView)> {
        let m = with_optional(
            self.leading_members(),
            "response_format"@,
            match self.response_format {
                Some(format) => Some(format.json()),
                None => None,
            },
        );
        let m = with_optional(
            m,
            "seed"@,
            match self.seed {
                Some(seed) => Some(unsigned_json(seed)),
                None => None,
            },
        );
        let m = with_optional(
            m,
            "stop"@,
            match self.stop {
                Some(stop) => Some(texts_json(texts_view(stop@))),
                None => None,
            },
        );
        let m = m.push(("stream"@, JsonView::Bool(self.stream))).push(
            ("temperature"@, self.temperature.json()),
        );
        let m = with_optional(
            m,
            "tool_choice"@,
            optional_string(optional_text_view(self.tool_choice)),
        );
        let m = with_optional(
            m,
            "tools"@,
            match self.tools {
                Some(tools) => Some(tools_json(tools_view(tools@))),
                None => None,
            },
        );
        let m = m.push(("top_k"@, unsigned_json(self.top_k as u64))).push(
            ("top_p"@, self.top_p.json()),
        );
        with_optional(m, "user"@, optional_string(optional_text_view(self.user)))
    }

    /// The JSON object that is the request's body.
    pub open spec fn json(&self) -> JsonView {
        JsonView::Object(self.members())
    }

    /// A request for `messages` with every parameter at its default and
    /// nothing optional.
    pub fn new(messages: Vec<Message>) -> (request: ChatCompletionRequest)
        ensures
            request.messages == messages,
            request.model@ == DEFAULT_CHAT_MODEL@,
            request.max_tokens == 100000,
            request.n == 1,
            request.top_k == 0,
            !request.stream,
            request.frequency_penalty.json() == JsonView::Number(NumberView::Real("0.0"@)),
            request.min_p.json() == JsonView::Number(NumberView::Real("0.0"@)),
            request.presence_penalty.json() == JsonView::Number(NumberView::Real("0.0"@)),
            request.repetition_penalty.json() == JsonView::Number(NumberView::Real("1.0"@)),
            request.temperature.json() == JsonView::Number(NumberView::Real("1.0"@)),
            request.top_p.json() == JsonView::Number(NumberView::Real("1.0"@)),
            request.response_format is None,
            request.seed is None,
            request.stop is None,
            request.tool_choice is None,
            request.tools is None,
            request.user is None,
    {
        ChatCompletionRequest {
            frequency_penalty: Parameter::of_text("0.0"),
            max_tokens: 100000,
            messages,
            min_p: Parameter::of_text("0.0"),
            model: DEFAULT_CHAT_MODEL.to_owned(),
            n: 1,
            presence_penalty: Parameter::of_text("0.0"),
            repetition_penalty: Parameter::of_text("1.0"),
            response_format: None,
            seed: None,
            stop: None,
            stream: false,
            temperature: Parameter::of_text("1.0"),
            tool_choice: None,
            tools: None,
            top_k: 0,
            top_p: Parameter::of_text("1.0"),
            user: None,
        }
    }

    /// Writes the request as the JSON object that is its body.
    pub fn to_json(&self) -> (doc: Json)
        ensures
            doc@ == self.json(),
    {
        let mut members = new_members();
        push_member(
            &mut members,
            "frequency_penalty",
            self.frequency_penalty.to_json(),
        );
        push_member(&mut members, "max_tokens", Json::Number(Number::Unsigned(self.max_tokens as u64)));
        push_member(&mut members, "messages", messages_to_json(&self.messages));
        push_member(&mut members, "min_p", self.min_p.to_json());
        push_member(&mut members, "model", Json::text(self.model.as_str()));
        push_member(&mut members, "n", Json::Number(Number::Unsigned(self.n as u64)));
        push_member(
            &mut members,
            "presence_penalty",
            self.presence_penalty.to_json(),
        );
        push_member(
            &mut members,
            "repetition_penalty",
            self.repetition_penalty.to_json(),
        );
        assert(members_view(members@) == self.leading_members());
        if let Some(format) = &self.response_format {
            push_member(&mut members, "response_format", format.to_json());
        }
        if let Some(seed) = &self.seed {
            push_member(&mut members, "seed", Json::Number(Number::Unsigned(*seed)));
        }
        if let Some(stop) = &self.stop {
            push_member(&mut members, "stop", texts_to_json(stop));
        }
        push_member(&mut members, "stream", Json::Bool(self.stream));
        push_member(&mut members, "temperature", self.temperature.to_json());
        if let Some(choice) = &self.tool_choice {
            push_member(&mut members, "tool_choice", Json::text(choice.as_str()));
        }
        if let Some(tools) = &self.tools {
            push_member(&mut members, "tools", tools_to_json(tools));
        }
        push_member(&mut members, "top_k", Json::Number(Number::Unsigned(self.top_k as u64)));
        push_member(&mut members, "top_p", self.top_p.to_json());
        if let Some(user) = &self.user {
            push_member(&mut members, "user", Json::text(user.as_str()));
        }
        Json::object(members)
    }

    /// The bytes of the request's body: the text of [`Self::json`], or
    /// `None` where one of the request's real numbers has a text that is no
    /// number literal. The document that is written has a member for each
    /// key of [`Self::json`] and for no other: a field that holds nothing is
    /// not written, not even as `null`.
    pub fn body(&self) -> (bytes: Option<Vec<u8>>)
        ensures
            match bytes {
                Some(b) => rendered(self.json()) == Some(b@),
                None => rendered(self.json()) is None,
            },
            bytes is Some ==> (lowered(self.json()) matches Some(sent) && same_fields(
                self.json(),
                sent,
            )),
    {
        self.to_json().to_bytes()
    }
}

/// What is known of the keys of a request's body: enough to tell them apart.
pub proof fn lemma_request_keys()
    ensures
        "frequency_penalty"@.len() == 17,
        "max_tokens"@.len() == 10,
        "messages"@.len() == 8,
        "min_p"@.len() == 5,
        "model"@.len() == 5,
        "n"@.len() == 1,
        "presence_penalty"@.len() == 16,
        "repetition_penalty"@.len() == 18,
        "response_format"@.len() == 15,
        "seed"@.len() == 4,
        "stop"@.len() == 4,
        "stream"@.len() == 6,
        "temperature"@.len() == 11,
        "tool_choice"@.len() == 11,
        "tools"@.len() == 5,
        "top_k"@.len() == 5,
        "top_p"@.len() == 5,
        "user"@.len() == 4,
        "min_p"@[1] == 'i',
        "model"@[1] == 'o',
        "min_p"@[0] == 'm',
        "model"@[0] == 'm',
        "tools"@[0] == 't',
        "top_k"@[0] == 't',
        "top_p"@[0] == 't',
        "tools"@[2] == 'o',
        "top_k"@[2] == 'p',
        "top_p"@[2] == 'p',
        "top_k"@[4] == 'k',
        "top_p"@[4] == 'p',
        "seed"@[1] == 'e',
        "stop"@[1] == 't',
        "user"@[1] == 's',
        "temperature"@[1] == 'e',
        "tool_choice"@[1] == 'o',
{
    reveal_strlit("frequency_penalty");
    reveal_strlit("max_tokens");
    reveal_strlit("messages");
    reveal_strlit("min_p");
    reveal_strlit("model");
    reveal_strlit("n");
    reveal_strlit("presence_penalty");
    reveal_strlit("repetition_penalty");
    reveal_strlit("response_format");
    reveal_strlit("seed");
    reveal_strlit("stop");
    reveal_strlit("stream");
    reveal_strlit("temperature");
    reveal_strlit("tool_choice");
    reveal_strlit("tools");
    reveal_strlit("top_k");
    reveal_strlit("top_p");
    reveal_strlit("user");
}

/// An optional field of a request is a member of the body exactly when the
/// caller set it: a field that was left out is absent from the body, not
/// there as `null`, and a field that was set is there with its value.
pub proof fn lemma_optional_members(request: ChatCompletionRequest)
    ensures
        request.json().field("response_format"@) == match request.response_format {
            Some(format) => Some(format.json()),
            None => None,
        },
        request.json().field("seed"@) == match request.seed {
            Some(seed) => Some(unsigned_json(seed)),
            None => None,
        },
        request.json().field("stop"@) == match request.stop {
            Some(stop) => Some(texts_json(texts_view(stop@))),
            None => None,
        },
        request.json().field("tool_choice"@) == optional_string(
            optional_text_view(request.tool_choice),
        ),
        request.json().field("tools"@) == match request.tools {
            Some(tools) => Some(tools_json(tools_view(tools@))),
            None => None,
        },
        request.json().field("user"@) == optional_string(optional_text_view(request.user)),
{
    broadcast use lemma_member_push, lemma_member_with_optional;

    lemma_request_keys();
}

/// Every field of a request that is not optional is a member of the body,
/// with the field's value.
pub proof fn lemma_required_members(request: ChatCompletionRequest)
    ensures
        request.json().field("frequency_penalty"@) == Some(
            request.frequency_penalty.json(),
        ),
        request.json().field("max_tokens"@) == Some(unsigned_json(request.max_tokens as u64)),
        request.json().field("messages"@) == Some(messages_json(messages_view(request.messages@))),
        request.json().field("min_p"@) == Some(request.min_p.json()),
        request.json().field("model"@) == Some(JsonView::String(request.model@)),
        request.json().field("n"@) == Some(unsigned_json(request.n as u64)),
        request.json().field("presence_penalty"@) == Some(
            request.presence_penalty.json(),
        ),
        request.json().field("repetition_penalty"@) == Some(
            request.repetition_penalty.json(),
        ),
        request.json().field("stream"@) == Some(JsonView::Bool(request.stream)),
        request.json().field("temperature"@) == Some(request.temperature.json()),
        request.json().field("top_k"@) == Some(unsigned_json(request.top_k as u64)),
        request.json().field("top_p"@) == Some(request.top_p.json()),
{
    broadcast use lemma_member_push, lemma_member_with_optional;

    lemma_request_keys();
}

/// The messages of a request's body, read back one by one, are the messages
/// of the request.
pub proof fn lemma_body_messages(request: ChatCompletionRequest)
    ensures
        request.json().field("messages"@) matches Some(JsonView::Array(items)) && read_all(
            items,
            |d: JsonView| MessageView::from_json(d),
        ) == Some(messages_view(request.messages@)),
{
    lemma_required_members(request);
    lemma_messages_round_trip(messages_view(request.messages@));
}

} // verus!
