//! The tools a request may offer to the model and the format it may ask the
//! answer in.

use crate::chat_completition::messages::lemma_call_keys;
use crate::json::{
    items_view, Json, JsonView, lemma_member_push, new_items, new_members, no_members, push_item,
    push_member,
};
use crate::text::same_text;
use vstd::prelude::*;

verus! {

/// The kinds of answer a request can ask for.
#[derive(Debug, Clone, Copy, PartialEq, Eq)]
pub enum ResponseFormatType {
    Text,
    JsonObject,
}

/// The format a request asks the answer in.
#[derive(Debug, Clone, Copy, PartialEq, Eq)]
pub struct ResponseFormat {
    pub response_type: ResponseFormatType,
}

/// A function that the model may call: its name, what it does, and the JSON
/// schema of its parameters.
#[derive(Debug, PartialEq, Eq)]
pub struct FunctionDefinition {
    pub name: String,
    pub description: String,
    pub parameters: Json,
}

/// The view of a [`FunctionDefinition`].
pub struct FunctionDefinitionView {
    pub name: Seq<char>,
    pub description: Seq<char>,
    pub parameters: JsonView,
}

impl View for FunctionDefinition {
    type V = FunctionDefinitionView;

    open spec fn view(&self) -> FunctionDefinitionView {
        FunctionDefinitionView {
            name: self.name@,
            description: self.description@,
            parameters: self.parameters@,
        }
    }
}

/// A tool that the model may call.
#[derive(Debug, PartialEq, Eq)]
pub struct ChatTool {
    pub type_: String,
    pub function: FunctionDefinition,
}

/// The view of a [`ChatTool`].
pub struct ChatToolView {
    pub type_: Seq<char>,
    pub function: FunctionDefinitionView,
}

impl View for ChatTool {
    type V = ChatToolView;

    open spec fn view(&self) -> ChatToolView {
        ChatToolView { type_: self.type_@, function: self.function@ }
    }
}

/// The views of `tools`, one by one.
pub open spec fn tools_view(tools: Seq<ChatTool>) -> Seq<ChatToolView> {
    Seq::new(tools.len(), |i: int| tools[i]@)
}

/// The type of a tool whose description names none.
pub fn default_tool_type() -> (type_: String)
    ensures
        type_@ == "function"@,
{
    "function".to_owned()
}

/// The type of a response format whose description names none.
pub fn default_response_format_type() -> (response_type: ResponseFormatType)
    ensures
        response_type == ResponseFormatType::Text,
{
    ResponseFormatType::Text
}

impl ResponseFormatType {
    /// The name this type goes on the wire with.
    pub open spec fn name(self) -> Seq<char> {
        match self {
            ResponseFormatType::Text => "text"@,
            ResponseFormatType::JsonObject => "json_object"@,
        }
    }

    /// The string that stands for this type.
    pub open spec fn json(self) -> JsonView {
        JsonView::String(self.name())
    }

    /// The type that `doc` holds: one of the two names, as a string.
    pub open spec fn of_json(doc: JsonView) -> Option<ResponseFormatType> {
        match doc {
            JsonView::String(s) => if s == "text"@ {
                Some(ResponseFormatType::Text)
            } else if s == "json_object"@ {
                Some(ResponseFormatType::JsonObject)
            } else {
                None
            },
            _ => None,
        }
    }

    /// Writes the type as a JSON string.
    pub fn to_json(&self) -> (doc: Json)
        ensures
            doc@ == self.json(),
    {
        match self {
            ResponseFormatType::Text => Json::text("text"),
            ResponseFormatType::JsonObject => Json::text("json_object"),
        }
    }

    /// Reads a type from a document.
    pub fn from_json(doc: &Json) -> (found: Option<ResponseFormatType>)
        ensures
            found == ResponseFormatType::of_json(doc@),
    {
        match doc.as_text() {
            Some(name) => if same_text(name.as_str(), "text") {
                Some(ResponseFormatType::Text)
            } else if same_text(name.as_str(), "json_object") {
                Some(ResponseFormatType::JsonObject)
            } else {
                None
            },
            None => None,
        }
    }
}

impl ResponseFormat {
    /// The object that stands for this format.
    pub open spec fn json(self) -> JsonView {
        JsonView::Object(no_members().push(("type"@, self.response_type.json())))
    }

    /// The format that `doc` holds: `doc` is an object; its member `type`
    /// names the type, and a missing member stands for plain text.
    pub open spec fn of_json(doc: JsonView) -> Option<ResponseFormat> {
        if doc is Object {
            match doc.field("type"@) {
                None => Some(ResponseFormat { response_type: ResponseFormatType::Text }),
                Some(t) => match ResponseFormatType::of_json(t) {
                    Some(response_type) => Some(ResponseFormat { response_type }),
                    None => None,
                },
            }
        } else {
            None
        }
    }

    /// Writes the format as a JSON object.
    pub fn to_json(&self) -> (doc: Json)
        ensures
            doc@ == self.json(),
    {
        let mut members = new_members();
        push_member(&mut members, "type", self.response_type.to_json());
        Json::object(members)
    }

    /// Reads a format from a document.
    pub fn from_json(doc: &Json) -> (found: Option<ResponseFormat>)
        ensures
            found == ResponseFormat::of_json(doc@),
    {
        match doc {
            Json::Object(_) => {},
            _ => { return None; },
        }
        match doc.get("type") {
            None => Some(ResponseFormat { response_type: default_response_format_type() }),
            Some(t) => match ResponseFormatType::from_json(t) {
                Some(response_type) => Some(ResponseFormat { response_type }),
                None => None,
            },
        }
    }

    /// Reading what was written gives the format back.
    pub proof fn lemma_round_trip(self)
        ensures
            ResponseFormat::of_json(self.json()) == Some(self),
    {
        broadcast use lemma_member_push;

        reveal_strlit("text");
        reveal_strlit("json_object");
        assert("text"@.len() == 4);
        assert("json_object"@.len() == 11);
    }
}

impl FunctionDefinitionView {
    /// The object that stands for this definition.
    pub open spec fn to_json(self) -> JsonView {
        JsonView::Object(
            no_members().push(("name"@, JsonView::String(self.name))).push(
                ("description"@, JsonView::String(self.description)),
            ).push(("parameters"@, self.parameters)),
        )
    }

    /// The definition that `doc` holds: members `name` and `description` are
    /// strings, and member `parameters` is there, whatever it holds.
    pub open spec fn from_json(doc: JsonView) -> Option<FunctionDefinitionView> {
        match (doc.text_field("name"@), doc.text_field("description"@), doc.field("parameters"@)) {
            (Some(name), Some(description), Some(parameters)) => Some(
                FunctionDefinitionView { name, description, parameters },
            ),
            _ => None,
        }
    }
}

impl ChatToolView {
    /// The object that stands for this tool.
    pub open spec fn to_json(self) -> JsonView {
        JsonView::Object(
            no_members().push(("type"@, JsonView::String(self.type_))).push(
                ("function"@, self.function.to_json()),
            ),
        )
    }

    /// The tool that `doc` holds: member `function` holds a definition, and
    /// member `type` is a string; a missing `type` stands for `function`.
    pub open spec fn from_json(doc: JsonView) -> Option<ChatToolView> {
        let type_ = match doc.field("type"@) {
            None => Some("function"@),
            Some(JsonView::String(t)) => Some(t),
            Some(_) => None,
        };
        match (type_, doc.field("function"@)) {
            (Some(type_), Some(f)) => match FunctionDefinitionView::from_json(f) {
                Some(function) => Some(ChatToolView { type_, function }),
                None => None,
            },
            _ => None,
        }
    }

    /// Reading what was written gives the tool back.
    pub proof fn lemma_round_trip(self)
        ensures
            ChatToolView::from_json(self.to_json()) == Some(self),
    {
        broadcast use lemma_member_push;

        lemma_call_keys();
        reveal_strlit("description");
        reveal_strlit("parameters");
        assert("description"@.len() == 11);
        assert("parameters"@.len() == 10);
    }
}

/// The array that stands for `tools`.
pub open spec fn tools_json(tools: Seq<ChatToolView>) -> JsonView {
    JsonView::Array(Seq::new(tools.len(), |i: int| tools[i].to_json()))
}

impl FunctionDefinition {
    /// Writes the definition as a JSON object.
    pub fn to_json(&self) -> (doc: Json)
        ensures
            doc@ == self@.to_json(),
    {
        let mut members = new_members();
        push_member(&mut members, "name", Json::text(self.name.as_str()));
        push_member(&mut members, "description", Json::text(self.description.as_str()));
        push_member(&mut members, "parameters", self.parameters.duplicate());
        Json::object(members)
    }

    /// Reads a definition from a document.
    pub fn from_json(doc: &Json) -> (found: Option<FunctionDefinition>)
        ensures
            match found {
                Some(f) => FunctionDefinitionView::from_json(doc@) == Some(f@),
                None => FunctionDefinitionView::from_json(doc@) is None,
            },
    {
        let name = match doc.text_field("name") {
            Some(name) => name.clone(),
            None => { return None; },
        };
        let description = match doc.text_field("description") {
            Some(description) => description.clone(),
            None => { return None; },
        };
        let parameters = match doc.get("parameters") {
            Some(parameters) => parameters.duplicate(),
            None => { return None; },
        };
        Some(FunctionDefinition { name, description, parameters })
    }
}

impl ChatTool {
    /// Writes the tool as a JSON object.
    pub fn to_json(&self) -> (doc: Json)
        ensures
            doc@ == self@.to_json(),
    {
        let mut members = new_members();
        push_member(&mut members, "type", Json::text(self.type_.as_str()));
        push_member(&mut members, "function", self.function.to_json());
        Json::object(members)
    }

    /// Reads a tool from a document.
    pub fn from_json(doc: &Json) -> (found: Option<ChatTool>)
        ensures
            match found {
                Some(t) => ChatToolView::from_json(doc@) == Some(t@),
                None => ChatToolView::from_json(doc@) is None,
            },
    {
        let type_ = match doc.get("type") {
            None => default_tool_type(),
            Some(t) => match t.as_text() {
                Some(t) => t.clone(),
                None => { return None; },
            },
        };
        let function = match doc.get("function") {
            Some(f) => match FunctionDefinition::from_json(f) {
                Some(function) => function,
                None => { return None; },
            },
            None => { return None; },
        };
        Some(ChatTool { type_, function })
    }
}

/// Writes tools as a JSON array.
pub fn tools_to_json(tools: &Vec<ChatTool>) -> (doc: Json)
    ensures
        doc@ == tools_json(tools_view(tools@)),
{
    let ghost wanted = tools_json(tools_view(tools@))->Array_0;
    let mut items = new_items();
    let mut i: usize = 0;
    assert(wanted.take(0) =~= Seq::<JsonView>::empty());
    while i < tools.len()
        invariant
            i <= tools.len(),
            wanted == tools_json(tools_view(tools@))->Array_0,
            items_view(items@) == wanted.take(i as int),
        decreases tools.len() - i,
    {
        push_item(&mut items, tools[i].to_json());
        assert(wanted.take(i as int).push(wanted[i as int]) =~= wanted.take(i + 1));
        i = i + 1;
    }
    assert(wanted.take(tools.len() as int) =~= wanted);
    Json::array(items)
}

} // verus!
