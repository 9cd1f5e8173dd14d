//! Chat completion: messages, the request and its JSON body, and the
//! decoding of the service's answer.

pub mod messages;
pub mod request;
pub mod response;
pub mod tools;

pub use messages::{
    AssistantMessage, AssistantMessageView, FunctionCall, FunctionCallView, lemma_call_keys,
    lemma_message_keys, lemma_messages_round_trip, lemma_tool_calls_round_trip, Message,
    messages_json, messages_to_json, messages_view, MessageView, optional_tool_calls_view,
    SystemMessage, SystemMessageView, tool_calls_from_json, tool_calls_json, tool_calls_of,
    tool_calls_to_json, tool_calls_view, ToolCall, ToolCallView, ToolMessage, ToolMessageView,
    UserMessage, UserMessageView,
};
pub use request::{
    CHAT_COMPLETIONS_API_URL, ChatCompletionRequest, DEFAULT_CHAT_MODEL, lemma_body_messages,
    lemma_optional_members, lemma_request_keys, lemma_required_members, Parameter, texts_json,
    texts_to_json, unsigned_json,
};
pub use response::{
    chat_completion_outcome, chat_completion_reply, chat_completion_result, chat_reply_outcome,
    chat_result_view, ChatCompletionError, ChatCompletionResponse, ChatCompletionResponseView,
    Choice, choices_from_json, choices_json, choices_of, choices_to_json, choices_view,
    ChoiceView, decode_chat_completion, lemma_response_keys, optional_i64, optional_signed_json,
    signed_json, status_failure, Usage, usage_from_json,
};
pub use tools::{
    ChatTool, ChatToolView, default_response_format_type, default_tool_type, FunctionDefinition,
    FunctionDefinitionView, ResponseFormat, ResponseFormatType, tools_json, tools_to_json,
    tools_view,
};
