//! The messages of a conversation, the tool calls they may carry, and how
//! both are written as JSON and read back.

use crate::json::{
    items_view, Json, JsonView, lemma_member_push, lemma_member_with_optional, members_view,
    new_items, new_members, no_members, optional_string, push_item, push_member, read_all,
    with_optional,
};
use crate::text::{optional_text_view, same_text};
use vstd::prelude::*;

verus! {

/// A function call that the model asks for. `arguments` is the text the model
/// produced; it is meant to be JSON and is not read here.
#[derive(Debug, Clone, PartialEq, Eq)]
pub struct FunctionCall {
    pub name: String,
    pub arguments: String,
}

/// The view of a [`FunctionCall`].
pub struct FunctionCallView {
    pub name: Seq<char>,
    pub arguments: Seq<char>,
}

impl View for FunctionCall {
    type V = FunctionCallView;

    open spec fn view(&self) -> FunctionCallView {
        FunctionCallView { name: self.name@, arguments: self.arguments@ }
    }
}

/// A tool call made by the model.
#[derive(Debug, Clone, PartialEq, Eq)]
pub struct ToolCall {
    pub id: String,
    pub type_: String,
    pub function: FunctionCall,
}

/// The view of a [`ToolCall`].
pub struct ToolCallView {
    pub id: Seq<char>,
    pub type_: Seq<char>,
    pub function: FunctionCallView,
}

impl View for ToolCall {
    type V = ToolCallView;

    open spec fn view(&self) -> ToolCallView {
        ToolCallView { id: self.id@, type_: self.type_@, function: self.function@ }
    }
}

/// The views of `calls`, one by one.
pub open spec fn tool_calls_view(calls: Seq<ToolCall>) -> Seq<ToolCallView> {
    Seq::new(calls.len(), |i: int| calls[i]@)
}

/// The views of optional tool calls.
pub open spec fn optional_tool_calls_view(calls: Option<Vec<ToolCall>>) -> Option<
    Seq<ToolCallView>,
> {
    match calls {
        Some(c) => Some(tool_calls_view(c@)),
        None => None,
    }
}

/// A message that sets the assistant's behaviour.
#[derive(Debug, Clone, PartialEq, Eq)]
pub struct SystemMessage {
    pub content: String,
    pub name: Option<String>,
}

/// The view of a [`SystemMessage`].
pub struct SystemMessageView {
    pub content: Seq<char>,
    pub name: Option<Seq<char>>,
}

impl View for SystemMessage {
    type V = SystemMessageView;

    open spec fn view(&self) -> SystemMessageView {
        SystemMessageView { content: self.content@, name: optional_text_view(self.name) }
    }
}

/// A message of the user.
#[derive(Debug, Clone, PartialEq, Eq)]
pub struct UserMessage {
    pub content: String,
    pub name: Option<String>,
}

/// The view of a [`UserMessage`].
pub struct UserMessageView {
    pub content: Seq<char>,
    pub name: Option<Seq<char>>,
}

impl View for UserMessage {
    type V = UserMessageView;

    open spec fn view(&self) -> UserMessageView {
        UserMessageView { content: self.content@, name: optional_text_view(self.name) }
    }
}

/// A message of the assistant, with the tool calls it asks for.
#[derive(Debug, Clone, PartialEq, Eq)]
pub struct AssistantMessage {
    pub content: String,
    pub name: Option<String>,
    pub tool_calls: Option<Vec<ToolCall>>,
}

/// The view of an [`AssistantMessage`].
pub struct AssistantMessageView {
    pub content: Seq<char>,
    pub name: Option<Seq<char>>,
    pub tool_calls: Option<Seq<ToolCallView>>,
}

impl View for AssistantMessage {
    type V = AssistantMessageView;

    open spec fn view(&self) -> AssistantMessageView {
        AssistantMessageView {
            content: self.content@,
            name: optional_text_view(self.name),
            tool_calls: optional_tool_calls_view(self.tool_calls),
        }
    }
}

/// The result of a tool call, handed back to the model.
#[derive(Debug, Clone, PartialEq, Eq)]
pub struct ToolMessage {
    pub content: String,
    pub tool_call_id: String,
}

/// The view of a [`ToolMessage`].
pub struct ToolMessageView {
    pub content: Seq<char>,
    pub tool_call_id: Seq<char>,
}

impl View for ToolMessage {
    type V = ToolMessageView;

    open spec fn view(&self) -> ToolMessageView {
        ToolMessageView { content: self.content@, tool_call_id: self.tool_call_id@ }
    }
}

/// A message of a conversation. Its role is the variant, and goes on the wire
/// as member `role`.
#[derive(Debug, Clone, PartialEq, Eq)]
pub enum Message {
    System(SystemMessage),
    User(UserMessage),
    Assistant(AssistantMessage),
    Tool(ToolMessage),
}

/// The view of a [`Message`].
pub enum MessageView {
    System(SystemMessageView),
    User(UserMessageView),
    Assistant(AssistantMessageView),
    Tool(ToolMessageView),
}

impl View for Message {
    type V = MessageView;

    open spec fn view(&self) -> MessageView {
        match self {
            Message::System(m) => MessageView::System(m@),
            Message::User(m) => MessageView::User(m@),
            Message::Assistant(m) => MessageView::Assistant(m@),
            Message::Tool(m) => MessageView::Tool(m@),
        }
    }
}

/// The views of `messages`, one by one.
pub open spec fn messages_view(messages: Seq<Message>) -> Seq<MessageView> {
    Seq::new(messages.len(), |i: int| messages[i]@)
}

/// What is known of the keys of function calls and tool calls: enough to tell
/// them apart.
pub proof fn lemma_call_keys()
    ensures
        "name"@.len() == 4,
        "arguments"@.len() == 9,
        "id"@.len() == 2,
        "type"@.len() == 4,
        "function"@.len() == 8,
        "name"@[0] == 'n',
        "type"@[0] == 't',
{
    reveal_strlit("name");
    reveal_strlit("arguments");
    reveal_strlit("id");
    reveal_strlit("type");
    reveal_strlit("function");
}

/// What is known of the keys and roles of messages: enough to tell them
/// apart.
pub proof fn lemma_message_keys()
    ensures
        "role"@.len() == 4,
        "content"@.len() == 7,
        "name"@.len() == 4,
        "tool_calls"@.len() == 10,
        "tool_call_id"@.len() == 12,
        "role"@[0] == 'r',
        "name"@[0] == 'n',
        "system"@.len() == 6,
        "user"@.len() == 4,
        "assistant"@.len() == 9,
        "tool"@.len() == 4,
        "user"@[0] == 'u',
        "tool"@[0] == 't',
{
    reveal_strlit("role");
    reveal_strlit("content");
    reveal_strlit("name");
    reveal_strlit("tool_calls");
    reveal_strlit("tool_call_id");
    reveal_strlit("system");
    reveal_strlit("user");
    reveal_strlit("assistant");
    reveal_strlit("tool");
}

impl FunctionCallView {
    /// The object that stands for this call.
    pub open spec fn to_json(self) -> JsonView {
        JsonView::Object(
            no_members().push(("name"@, JsonView::String(self.name))).push(
                ("arguments"@, JsonView::String(self.arguments)),
            ),
        )
    }

    /// The call that `doc` holds: members `name` and `arguments` are strings.
    pub open spec fn from_json(doc: JsonView) -> Option<FunctionCallView> {
        match (doc.text_field("name"@), doc.text_field("arguments"@)) {
            (Some(name), Some(arguments)) => Some(FunctionCallView { name, arguments }),
            _ => None,
        }
    }

    /// Reading what was written gives the call back.
    pub proof fn lemma_round_trip(self)
        ensures
            FunctionCallView::from_json(self.to_json()) == Some(self),
    {
        broadcast use lemma_member_push;

        lemma_call_keys();
    }
}

impl ToolCallView {
    /// The object that stands for this tool call.
    pub open spec fn to_json(self) -> JsonView {
        JsonView::Object(
            no_members().push(("id"@, JsonView::String(self.id))).push(
                ("type"@, JsonView::String(self.type_)),
            ).push(("function"@, self.function.to_json())),
        )
    }

    /// The tool call that `doc` holds: members `id` and `type` are strings
    /// and member `function` holds a function call.
    pub open spec fn from_json(doc: JsonView) -> Option<ToolCallView> {
        match (doc.text_field("id"@), doc.text_field("type"@), doc.field("function"@)) {
            (Some(id), Some(type_), Some(f)) => match FunctionCallView::from_json(f) {
                Some(function) => Some(ToolCallView { id, type_, function }),
                None => None,
            },
            _ => None,
        }
    }

    /// Reading what was written gives the tool call back.
    pub proof fn lemma_round_trip(self)
        ensures
            ToolCallView::from_json(self.to_json()) == Some(self),
    {
        broadcast use lemma_member_push;

        lemma_call_keys();
        self.function.lemma_round_trip();
    }
}

/// The array that stands for `calls`.
pub open spec fn tool_calls_json(calls: Seq<ToolCallView>) -> JsonView {
    JsonView::Array(Seq::new(calls.len(), |i: int| calls[i].to_json()))
}

/// The tool calls that member `tool_calls` of `doc` holds: none where the
/// member is missing or `null`; the outer `None` where it is there and is not
/// an array of tool calls.
pub open spec fn tool_calls_from_json(doc: JsonView) -> Option<Option<Seq<ToolCallView>>> {
    match doc.present("tool_calls"@) {
        None => Some(None),
        Some(JsonView::Array(items)) => match read_all(
            items,
            |d: JsonView| ToolCallView::from_json(d),
        ) {
            Some(calls) => Some(Some(calls)),
            None => None,
        },
        Some(_) => None,
    }
}

/// Reading the array written for `calls` gives them back.
pub proof fn lemma_tool_calls_round_trip(calls: Seq<ToolCallView>)
    ensures
        read_all(tool_calls_json(calls)->Array_0, |d: JsonView| ToolCallView::from_json(d)) == Some(
            calls,
        ),
{
    let items = tool_calls_json(calls)->Array_0;
    let read = |d: JsonView| ToolCallView::from_json(d);
    assert forall|i: int| 0 <= i < items.len() implies (#[trigger] read(items[i])) == Some(
        calls[i],
    ) by {
        calls[i].lemma_round_trip();
    }
    assert(read_all(items, read)->0 =~= calls);
}

impl SystemMessageView {
    /// `head`, and after it the members of this message.
    pub open spec fn members_after(self, head: Seq<(Seq<char>, JsonView)>) -> Seq<
        (Seq<char>, JsonView),
    > {
        with_optional(
            head.push(("content"@, JsonView::String(self.content))),
            "name"@,
            optional_string(self.name),
        )
    }

    /// The object that stands for this message, without a role.
    pub open spec fn to_json(self) -> JsonView {
        JsonView::Object(self.members_after(no_members()))
    }

    /// The message that `doc` holds: member `content` is a string, and member
    /// `name` is a string, `null` or missing.
    pub open spec fn from_json(doc: JsonView) -> Option<SystemMessageView> {
        match (doc.text_field("content"@), doc.optional_text("name"@)) {
            (Some(content), Some(name)) => Some(SystemMessageView { content, name }),
            _ => None,
        }
    }
}

impl UserMessageView {
    /// `head`, and after it the members of this message.
    pub open spec fn members_after(self, head: Seq<(Seq<char>, JsonView)>) -> Seq<
        (Seq<char>, JsonView),
    > {
        with_optional(
            head.push(("content"@, JsonView::String(self.content))),
            "name"@,
            optional_string(self.name),
        )
    }

    /// The object that stands for this message, without a role.
    pub open spec fn to_json(self) -> JsonView {
        JsonView::Object(self.members_after(no_members()))
    }

    /// The message that `doc` holds: member `content` is a string, and member
    /// `name` is a string, `null` or missing.
    pub open spec fn from_json(doc: JsonView) -> Option<UserMessageView> {
        match (doc.text_field("content"@), doc.optional_text("name"@)) {
            (Some(content), Some(name)) => Some(UserMessageView { content, name }),
            _ => None,
        }
    }
}

impl AssistantMessageView {
    /// `head`, and after it the members of this message.
    pub open spec fn members_after(self, head: Seq<(Seq<char>, JsonView)>) -> Seq<
        (Seq<char>, JsonView),
    > {
        with_optional(
            with_optional(
                head.push(("content"@, JsonView::String(self.content))),
                "name"@,
                optional_string(self.name),
            ),
            "tool_calls"@,
            match self.tool_calls {
                Some(calls) => Some(tool_calls_json(calls)),
                None => None,
            },
        )
    }

    /// The object that stands for this message, without a role.
    pub open spec fn to_json(self) -> JsonView {
        JsonView::Object(self.members_after(no_members()))
    }

    /// The message that `doc` holds: member `content` is a string, member
    /// `name` is a string, `null` or missing, and member `tool_calls` is an
    /// array of tool calls, `null` or missing.
    pub open spec fn from_json(doc: JsonView) -> Option<AssistantMessageView> {
        match (doc.text_field("content"@), doc.optional_text("name"@), tool_calls_from_json(doc)) {
            (Some(content), Some(name), Some(tool_calls)) => Some(
                AssistantMessageView { content, name, tool_calls },
            ),
            _ => None,
        }
    }
}

impl ToolMessageView {
    /// `head`, and after it the members of this message.
    pub open spec fn members_after(self, head: Seq<(Seq<char>, JsonView)>) -> Seq<
        (Seq<char>, JsonView),
    > {
        head.push(("content"@, JsonView::String(self.content))).push(
            ("tool_call_id"@, JsonView::String(self.tool_call_id)),
        )
    }

    /// The object that stands for this message, without a role.
    pub open spec fn to_json(self) -> JsonView {
        JsonView::Object(self.members_after(no_members()))
    }

    /// The message that `doc` holds: members `content` and `tool_call_id` are
    /// strings.
    pub open spec fn from_json(doc: JsonView) -> Option<ToolMessageView> {
        match (doc.text_field("content"@), doc.text_field("tool_call_id"@)) {
            (Some(content), Some(tool_call_id)) => Some(ToolMessageView { content, tool_call_id }),
            _ => None,
        }
    }
}

impl MessageView {
    /// The role this message goes on the wire with.
    pub open spec fn role(self) -> Seq<char> {
        match self {
            MessageView::System(_) => "system"@,
            MessageView::User(_) => "user"@,
            MessageView::Assistant(_) => "assistant"@,
            MessageView::Tool(_) => "tool"@,
        }
    }

    /// The object that stands for this message: member `role` first, then the
    /// members of the message itself.
    pub open spec fn to_json(self) -> JsonView {
        let head = no_members().push(("role"@, JsonView::String(self.role())));
        JsonView::Object(
            match self {
                MessageView::System(m) => m.members_after(head),
                MessageView::User(m) => m.members_after(head),
                MessageView::Assistant(m) => m.members_after(head),
                MessageView::Tool(m) => m.members_after(head),
            },
        )
    }

    /// The message that `doc` holds: member `role` is one of the four roles,
    /// and the other members are those of a message of that role.
    pub open spec fn from_json(doc: JsonView) -> Option<MessageView> {
        match doc.text_field("role"@) {
            Some(role) => if role == "system"@ {
                match SystemMessageView::from_json(doc) {
                    Some(m) => Some(MessageView::System(m)),
                    None => None,
                }
            } else if role == "user"@ {
                match UserMessageView::from_json(doc) {
                    Some(m) => Some(MessageView::User(m)),
                    None => None,
                }
            } else if role == "assistant"@ {
                match AssistantMessageView::from_json(doc) {
                    Some(m) => Some(MessageView::Assistant(m)),
                    None => None,
                }
            } else if role == "tool"@ {
                match ToolMessageView::from_json(doc) {
                    Some(m) => Some(MessageView::Tool(m)),
                    None => None,
                }
            } else {
                None
            },
            None => None,
        }
    }

    /// A message that is written as JSON and read back is the message that
    /// was written: same role, same content, same name, same tool calls.
    pub proof fn lemma_round_trip(self)
        ensures
            MessageView::from_json(self.to_json()) == Some(self),
    {
        broadcast use lemma_member_push, lemma_member_with_optional;

        lemma_message_keys();
        match self {
            MessageView::Assistant(m) => {
                if let Some(calls) = m.tool_calls {
                    lemma_tool_calls_round_trip(calls);
                }
            },
            _ => {},
        }
    }
}

/// The array that stands for `messages`.
pub open spec fn messages_json(messages: Seq<MessageView>) -> JsonView {
    JsonView::Array(Seq::new(messages.len(), |i: int| messages[i].to_json()))
}

/// Messages that are written as a JSON array and read back, one by one and
/// in order, are the messages that were written.
pub proof fn lemma_messages_round_trip(messages: Seq<MessageView>)
    ensures
        read_all(messages_json(messages)->Array_0, |d: JsonView| MessageView::from_json(d))
            == Some(messages),
{
    let items = messages_json(messages)->Array_0;
    let read = |d: JsonView| MessageView::from_json(d);
    assert forall|i: int| 0 <= i < items.len() implies (#[trigger] read(items[i])) == Some(
        messages[i],
    ) by {
        messages[i].lemma_round_trip();
    }
    assert(read_all(items, read)->0 =~= messages);
}

impl FunctionCall {
    /// Writes the call as a JSON object.
    pub fn to_json(&self) -> (doc: Json)
        ensures
            doc@ == self@.to_json(),
    {
        let mut members = new_members();
        push_member(&mut members, "name", Json::text(self.name.as_str()));
        push_member(&mut members, "arguments", Json::text(self.arguments.as_str()));
        Json::object(members)
    }

    /// Reads a call from a document.
    pub fn from_json(doc: &Json) -> (found: Option<FunctionCall>)
        ensures
            match found {
                Some(call) => FunctionCallView::from_json(doc@) == Some(call@),
                None => FunctionCallView::from_json(doc@) is None,
            },
    {
        let name = match doc.text_field("name") {
            Some(name) => name.clone(),
            None => { return None; },
        };
        let arguments = match doc.text_field("arguments") {
            Some(arguments) => arguments.clone(),
            None => { return None; },
        };
        Some(FunctionCall { name, arguments })
    }
}

impl ToolCall {
    /// Writes the tool call as a JSON object.
    pub fn to_json(&self) -> (doc: Json)
        ensures
            doc@ == self@.to_json(),
    {
        let mut members = new_members();
        push_member(&mut members, "id", Json::text(self.id.as_str()));
        push_member(&mut members, "type", Json::text(self.type_.as_str()));
        push_member(&mut members, "function", self.function.to_json());
        Json::object(members)
    }

    /// Reads a tool call from a document.
    pub fn from_json(doc: &Json) -> (found: Option<ToolCall>)
        ensures
            match found {
                Some(call) => ToolCallView::from_json(doc@) == Some(call@),
                None => ToolCallView::from_json(doc@) is None,
            },
    {
        let id = match doc.text_field("id") {
            Some(id) => id.clone(),
            None => { return None; },
        };
        let type_ = match doc.text_field("type") {
            Some(type_) => type_.clone(),
            None => { return None; },
        };
        let function = match doc.get("function") {
            Some(f) => match FunctionCall::from_json(f) {
                Some(function) => function,
                None => { return None; },
            },
            None => { return None; },
        };
        Some(ToolCall { id, type_, function })
    }
}

/// Writes tool calls as a JSON array.
pub fn tool_calls_to_json(calls: &Vec<ToolCall>) -> (doc: Json)
    ensures
        doc@ == tool_calls_json(tool_calls_view(calls@)),
{
    let ghost wanted = tool_calls_json(tool_calls_view(calls@))->Array_0;
    let mut items = new_items();
    let mut i: usize = 0;
    assert(wanted.take(0) =~= Seq::<JsonView>::empty());
    while i < calls.len()
        invariant
            i <= calls.len(),
            wanted == tool_calls_json(tool_calls_view(calls@))->Array_0,
            items_view(items@) == wanted.take(i as int),
        decreases calls.len() - i,
    {
        push_item(&mut items, calls[i].to_json());
        assert(wanted.take(i as int).push(wanted[i as int]) =~= wanted.take(i + 1));
        i = i + 1;
    }
    assert(wanted.take(calls.len() as int) =~= wanted);
    Json::array(items)
}

/// Reads the tool calls of member `tool_calls`; the outer `None` says that
/// the member is there and is not an array of tool calls.
pub fn tool_calls_of(doc: &Json) -> (found: Option<Option<Vec<ToolCall>>>)
    ensures
        match found {
            Some(Some(calls)) => tool_calls_from_json(doc@) == Some(Some(tool_calls_view(calls@))),
            Some(None) => tool_calls_from_json(doc@) == Some(None::<Seq<ToolCallView>>),
            None => tool_calls_from_json(doc@) is None,
        },
{
    let member = match doc.present("tool_calls") {
        Some(member) => member,
        None => { return Some(None); },
    };
    let items = match member.as_items() {
        Some(items) => items,
        None => { return None; },
    };
    let ghost views = items_view(items@);
    let ghost read = |d: JsonView| ToolCallView::from_json(d);
    let mut calls: Vec<ToolCall> = Vec::new();
    let mut i: usize = 0;
    while i < items.len()
        invariant
            i <= items.len(),
            views == items_view(items@),
            read == (|d: JsonView| ToolCallView::from_json(d)),
            doc@.present("tool_calls"@) == Some(JsonView::Array(views)),
            calls.len() == i,
            forall|k: int| 0 <= k < i ==> read(views[k]) == Some((#[trigger] calls[k])@),
        decreases items.len() - i,
    {
        match ToolCall::from_json(&items[i]) {
            Some(call) => calls.push(call),
            None => {
                assert(read(views[i as int]) is None);
                return None;
            },
        }
        i = i + 1;
    }
    proof {
        assert forall|k: int| 0 <= k < views.len() implies (#[trigger] read(views[k])) is Some by {
            assert(read(views[k]) == Some(calls[k]@));
        }
        assert(read_all(views, read)->0 =~= tool_calls_view(calls@)) by {
            assert forall|k: int| 0 <= k < views.len() implies read(views[k])->0 == calls[k]@ by {
                assert(read(views[k]) == Some(calls[k]@));
            }
        }
    }
    Some(Some(calls))
}

impl SystemMessage {
    /// Appends the members of this message.
    pub fn push_members(&self, members: &mut Vec<(String, Json)>)
        ensures
            members_view(final(members)@) == self@.members_after(members_view(old(members)@)),
    {
        push_member(members, "content", Json::text(self.content.as_str()));
        if let Some(name) = &self.name {
            push_member(members, "name", Json::text(name.as_str()));
        }
    }

    /// Writes the message as a JSON object, without a role.
    pub fn to_json(&self) -> (doc: Json)
        ensures
            doc@ == self@.to_json(),
    {
        let mut members = new_members();
        self.push_members(&mut members);
        Json::object(members)
    }

    /// Reads a message from a document.
    pub fn from_json(doc: &Json) -> (found: Option<SystemMessage>)
        ensures
            match found {
                Some(m) => SystemMessageView::from_json(doc@) == Some(m@),
                None => SystemMessageView::from_json(doc@) is None,
            },
    {
        let content = match doc.text_field("content") {
            Some(content) => content.clone(),
            None => { return None; },
        };
        let name = match doc.optional_text("name") {
            Some(name) => name,
            None => { return None; },
        };
        Some(SystemMessage { content, name })
    }
}

impl UserMessage {
    /// Appends the members of this message.
    pub fn push_members(&self, members: &mut Vec<(String, Json)>)
        ensures
            members_view(final(members)@) == self@.members_after(members_view(old(members)@)),
    {
        push_member(members, "content", Json::text(self.content.as_str()));
        if let Some(name) = &self.name {
            push_member(members, "name", Json::text(name.as_str()));
        }
    }

    /// Writes the message as a JSON object, without a role.
    pub fn to_json(&self) -> (doc: Json)
        ensures
            doc@ == self@.to_json(),
    {
        let mut members = new_members();
        self.push_members(&mut members);
        Json::object(members)
    }

    /// Reads a message from a document.
    pub fn from_json(doc: &Json) -> (found: Option<UserMessage>)
        ensures
            match found {
                Some(m) => UserMessageView::from_json(doc@) == Some(m@),
                None => UserMessageView::from_json(doc@) is None,
            },
    {
        let content = match doc.text_field("content") {
            Some(content) => content.clone(),
            None => { return None; },
        };
        let name = match doc.optional_text("name") {
            Some(name) => name,
            None => { return None; },
        };
        Some(UserMessage { content, name })
    }
}

impl AssistantMessage {
    /// Appends the members of this message.
    pub fn push_members(&self, members: &mut Vec<(String, Json)>)
        ensures
            members_view(final(members)@) == self@.members_after(members_view(old(members)@)),
    {
        push_member(members, "content", Json::text(self.content.as_str()));
        if let Some(name) = &self.name {
            push_member(members, "name", Json::text(name.as_str()));
        }
        if let Some(calls) = &self.tool_calls {
            push_member(members, "tool_calls", tool_calls_to_json(calls));
        }
    }

    /// Writes the message as a JSON object, without a role.
    pub fn to_json(&self) -> (doc: Json)
        ensures
            doc@ == self@.to_json(),
    {
        let mut members = new_members();
        self.push_members(&mut members);
        Json::object(members)
    }

    /// Reads a message from a document.
    pub fn from_json(doc: &Json) -> (found: Option<AssistantMessage>)
        ensures
            match found {
                Some(m) => AssistantMessageView::from_json(doc@) == Some(m@),
                None => AssistantMessageView::from_json(doc@) is None,
            },
    {
        let content = match doc.text_field("content") {
            Some(content) => content.clone(),
            None => { return None; },
        };
        let name = match doc.optional_text("name") {
            Some(name) => name,
            None => { return None; },
        };
        let tool_calls = match tool_calls_of(doc) {
            Some(tool_calls) => tool_calls,
            None => { return None; },
        };
        Some(AssistantMessage { content, name, tool_calls })
    }
}

impl ToolMessage {
    /// Appends the members of this message.
    pub fn push_members(&self, members: &mut Vec<(String, Json)>)
        ensures
            members_view(final(members)@) == self@.members_after(members_view(old(members)@)),
    {
        push_member(members, "content", Json::text(self.content.as_str()));
        push_member(members, "tool_call_id", Json::text(self.tool_call_id.as_str()));
    }

    /// Writes the message as a JSON object, without a role.
    pub fn to_json(&self) -> (doc: Json)
        ensures
            doc@ == self@.to_json(),
    {
        let mut members = new_members();
        self.push_members(&mut members);
        Json::object(members)
    }

    /// Reads a message from a document.
    pub fn from_json(doc: &Json) -> (found: Option<ToolMessage>)
        ensures
            match found {
                Some(m) => ToolMessageView::from_json(doc@) == Some(m@),
                None => ToolMessageView::from_json(doc@) is None,
            },
    {
        let content = match doc.text_field("content") {
            Some(content) => content.clone(),
            None => { return None; },
        };
        let tool_call_id = match doc.text_field("tool_call_id") {
            Some(tool_call_id) => tool_call_id.clone(),
            None => { return None; },
        };
        Some(ToolMessage { content, tool_call_id })
    }
}

impl Message {
    /// The role this message goes on the wire with.
    pub fn role(&self) -> (role: &'static str)
        ensures
            role@ == self@.role(),
    {
        match self {
            Message::System(_) => "system",
            Message::User(_) => "user",
            Message::Assistant(_) => "assistant",
            Message::Tool(_) => "tool",
        }
    }

    /// Writes the message as a JSON object: the role first, then the
    /// message's own members.
    pub fn to_json(&self) -> (doc: Json)
        ensures
            doc@ == self@.to_json(),
    {
        let mut members = new_members();
        push_member(&mut members, "role", Json::text(self.role()));
        match self {
            Message::System(m) => m.push_members(&mut members),
            Message::User(m) => m.push_members(&mut members),
            Message::Assistant(m) => m.push_members(&mut members),
            Message::Tool(m) => m.push_members(&mut members),
        }
        Json::object(members)
    }

    /// Reads a message from a document, by its role.
    pub fn from_json(doc: &Json) -> (found: Option<Message>)
        ensures
            match found {
                Some(m) => MessageView::from_json(doc@) == Some(m@),
                None => MessageView::from_json(doc@) is None,
            },
    {
        let role = match doc.text_field("role") {
            Some(role) => role,
            None => { return None; },
        };
        if same_text(role.as_str(), "system") {
            match SystemMessage::from_json(doc) {
                Some(m) => Some(Message::System(m)),
                None => None,
            }
        } else if same_text(role.as_str(), "user") {
            match UserMessage::from_json(doc) {
                Some(m) => Some(Message::User(m)),
                None => None,
            }
        } else if same_text(role.as_str(), "assistant") {
            match AssistantMessage::from_json(doc) {
                Some(m) => Some(Message::Assistant(m)),
                None => None,
            }
        } else if same_text(role.as_str(), "tool") {
            match ToolMessage::from_json(doc) {
                Some(m) => Some(Message::Tool(m)),
                None => None,
            }
        } else {
            None
        }
    }
}

/// Writes messages as a JSON array.
pub fn messages_to_json(messages: &Vec<Message>) -> (doc: Json)
    ensures
        doc@ == messages_json(messages_view(messages@)),
{
    let ghost wanted = messages_json(messages_view(messages@))->Array_0;
    let mut items = new_items();
    let mut i: usize = 0;
    assert(wanted.take(0) =~= Seq::<JsonView>::empty());
    while i < messages.len()
        invariant
            i <= messages.len(),
            wanted == messages_json(messages_view(messages@))->Array_0,
            items_view(items@) == wanted.take(i as int),
        decreases messages.len() - i,
    {
        push_item(&mut items, messages[i].to_json());
        assert(wanted.take(i as int).push(wanted[i as int]) =~= wanted.take(i + 1));
        i = i + 1;
    }
    assert(wanted.take(messages.len() as int) =~= wanted);
    Json::array(items)
}

} // verus!
