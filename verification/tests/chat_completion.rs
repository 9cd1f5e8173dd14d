use deepinfra_client_rs::chat_completition::{
    chat_completion_reply, chat_completion_result, decode_chat_completion,
    default_response_format_type, default_tool_type, AssistantMessage, ChatCompletionError,
    ChatCompletionRequest, ChatCompletionResponse, ChatTool, Choice, FunctionCall,
    FunctionDefinition, Message, Parameter, ResponseFormat, ResponseFormatType, SystemMessage,
    ToolCall, ToolMessage, Usage, UserMessage, CHAT_COMPLETIONS_API_URL,
};
use deepinfra_client_rs::json::{Json, Number};

fn system(content: &str) -> Message {
    Message::System(SystemMessage {
        content: content.to_string(),
        name: None,
    })
}

fn user(content: &str) -> Message {
    Message::User(UserMessage {
        content: content.to_string(),
        name: None,
    })
}

fn body_text(request: &ChatCompletionRequest) -> String {
    String::from_utf8(request.body().expect("a body")).expect("JSON text is UTF-8")
}

fn decode_failure() -> ChatCompletionError {
    ChatCompletionError::ReqwestError("error decoding response body".to_string())
}

#[test]
fn defaults_of_a_new_chat_request() {
    let request = ChatCompletionRequest::new(vec![user("hi")]);
    assert_eq!(request.model, "deepseek-ai/DeepSeek-V3");
    assert_eq!(request.max_tokens, 100000);
    assert_eq!(request.n, 1);
    assert_eq!(request.top_k, 0);
    assert!(!request.stream);
    assert_eq!(request.frequency_penalty, Parameter::of_text("0.0"));
    assert_eq!(request.min_p, Parameter::of_text("0.0"));
    assert_eq!(request.presence_penalty, Parameter::of_text("0.0"));
    assert_eq!(request.repetition_penalty, Parameter::of_text("1.0"));
    assert_eq!(request.temperature, Parameter::of_text("1.0"));
    assert_eq!(request.top_p, Parameter::of_text("1.0"));
    assert_eq!(request.response_format, None);
    assert_eq!(request.seed, None);
    assert_eq!(request.stop, None);
    assert_eq!(request.tool_choice, None);
    assert_eq!(request.tools, None);
    assert_eq!(request.user, None);
    assert_eq!(
        CHAT_COMPLETIONS_API_URL,
        "https://api.deepinfra.com/v1/openai/chat/completions"
    );
}

#[test]
fn omitted_optional_fields_are_absent_from_the_body() {
    let request = ChatCompletionRequest::new(vec![system("be brief"), user("hi")]);
    let doc = request.to_json();
    for key in ["response_format", "seed", "stop", "tool_choice", "tools", "user"] {
        assert!(doc.get(key).is_none(), "{} must be absent", key);
    }
    let text = body_text(&request);
    assert!(!text.contains("null"));
    assert!(!text.contains("\"stop\""));
    assert!(!text.contains("\"seed\""));
    let parsed: serde_json::Value = serde_json::from_str(&text).expect("valid JSON");
    let object = parsed.as_object().expect("an object");
    assert_eq!(object.len(), 12);
    assert!(!object.contains_key("stop"));
    assert!(!object.contains_key("seed"));
    match &doc {
        Json::Object(members) => {
            let keys: Vec<&str> = members.iter().map(|(k, _)| k.as_str()).collect();
            assert_eq!(
                keys,
                vec![
                    "frequency_penalty",
                    "max_tokens",
                    "messages",
                    "min_p",
                    "model",
                    "n",
                    "presence_penalty",
                    "repetition_penalty",
                    "stream",
                    "temperature",
                    "top_k",
                    "top_p"
                ]
            );
        }
        other => panic!("the body is an object, not {:?}", other),
    }
}

#[test]
fn the_body_holds_the_defaults_as_numbers() {
    let request = ChatCompletionRequest::new(vec![user("hi")]);
    let parsed: serde_json::Value =
        serde_json::from_slice(&request.body().expect("a body")).expect("valid JSON");
    assert_eq!(parsed["temperature"].as_f64(), Some(1.0));
    assert_eq!(parsed["frequency_penalty"].as_f64(), Some(0.0));
    assert_eq!(parsed["repetition_penalty"].as_f64(), Some(1.0));
    assert_eq!(parsed["max_tokens"].as_u64(), Some(100000));
    assert_eq!(parsed["n"].as_u64(), Some(1));
    assert_eq!(parsed["stream"].as_bool(), Some(false));
    assert_eq!(parsed["model"].as_str(), Some("deepseek-ai/DeepSeek-V3"));
    assert_eq!(parsed["messages"][0]["role"].as_str(), Some("user"));
    assert_eq!(parsed["messages"][0]["content"].as_str(), Some("hi"));
    assert!(parsed["messages"][0].get("name").is_none());
}

#[test]
fn set_optional_fields_are_members_of_the_body() {
    let mut request = ChatCompletionRequest::new(vec![user("hi")]);
    request.response_format = Some(ResponseFormat {
        response_type: ResponseFormatType::JsonObject,
    });
    request.seed = Some(u64::MAX);
    request.stop = Some(vec!["END".to_string(), "\n".to_string()]);
    request.tool_choice = Some("auto".to_string());
    request.tools = Some(vec![ChatTool {
        type_: default_tool_type(),
        function: FunctionDefinition {
            name: "lookup".to_string(),
            description: "looks a word up".to_string(),
            parameters: Json::parse(b"{\"type\": \"object\", \"required\": [\"word\"]}").unwrap(),
        },
    }]);
    request.user = Some("u-1".to_string());
    request.temperature = Parameter::of_text("0.25");
    request.stream = true;
    let parsed: serde_json::Value =
        serde_json::from_slice(&request.body().expect("a body")).expect("valid JSON");
    assert_eq!(parsed["response_format"]["type"].as_str(), Some("json_object"));
    assert_eq!(parsed["seed"].as_u64(), Some(u64::MAX));
    assert_eq!(parsed["stop"][0].as_str(), Some("END"));
    assert_eq!(parsed["stop"][1].as_str(), Some("\n"));
    assert_eq!(parsed["tool_choice"].as_str(), Some("auto"));
    assert_eq!(parsed["tools"][0]["type"].as_str(), Some("function"));
    assert_eq!(parsed["tools"][0]["function"]["name"].as_str(), Some("lookup"));
    assert_eq!(
        parsed["tools"][0]["function"]["parameters"]["required"][0].as_str(),
        Some("word")
    );
    assert_eq!(parsed["user"].as_str(), Some("u-1"));
    assert_eq!(parsed["temperature"].as_f64(), Some(0.25));
    assert_eq!(parsed["stream"].as_bool(), Some(true));
    assert_eq!(parsed.as_object().unwrap().len(), 18);
}

#[test]
fn a_real_number_that_is_no_literal_has_no_body() {
    let mut request = ChatCompletionRequest::new(vec![user("hi")]);
    request.top_p = Parameter::of_text("NaN");
    assert_eq!(request.body(), None);
}

#[test]
fn messages_echoed_in_a_response_come_back_as_they_were_sent() {
    let sent = vec![system("You are terse."), user("What is 2 + 2?")];
    let request = ChatCompletionRequest::new(sent.clone());
    let body = Json::parse(&request.body().expect("a body")).expect("the body is JSON");
    let echoed = match body.get("messages") {
        Some(Json::Array(items)) => items,
        other => panic!("messages must be an array, not {:?}", other),
    };
    assert_eq!(echoed.len(), 2);
    let mut choices = Vec::new();
    for (i, message) in echoed.iter().enumerate() {
        choices.push(Json::Object(vec![
            ("index".to_string(), Json::Number(Number::Unsigned(i as u64))),
            ("message".to_string(), message.duplicate()),
            ("finish_reason".to_string(), Json::String("stop".to_string())),
        ]));
    }
    let answer = Json::Object(vec![("choices".to_string(), Json::Array(choices))]);
    let bytes = answer.to_bytes().expect("JSON text");
    let response = decode_chat_completion(&bytes).expect("a chat completion");
    let received: Vec<Message> = response.choices.into_iter().map(|c| c.message).collect();
    assert_eq!(received, sent);
}

#[test]
fn every_kind_of_message_survives_writing_and_reading() {
    let messages = vec![
        Message::System(SystemMessage {
            content: "s".to_string(),
            name: Some("sys".to_string()),
        }),
        Message::User(UserMessage {
            content: "u \"quoted\" \u{e9}".to_string(),
            name: None,
        }),
        Message::Assistant(AssistantMessage {
            content: String::new(),
            name: Some("bot".to_string()),
            tool_calls: Some(vec![ToolCall {
                id: "call_1".to_string(),
                type_: "function".to_string(),
                function: FunctionCall {
                    name: "lookup".to_string(),
                    arguments: "{\"word\": ".to_string(),
                },
            }]),
        }),
        Message::Assistant(AssistantMessage {
            content: "a".to_string(),
            name: None,
            tool_calls: Some(vec![]),
        }),
        Message::Tool(ToolMessage {
            content: "42".to_string(),
            tool_call_id: "call_1".to_string(),
        }),
    ];
    for message in messages {
        let text = message.to_json().to_bytes().expect("JSON text");
        let back = Message::from_json(&Json::parse(&text).expect("JSON"));
        assert_eq!(back, Some(message));
    }
}

#[test]
fn a_message_is_tagged_with_its_role_first() {
    let doc = user("hi").to_json();
    assert_eq!(
        doc,
        Json::Object(vec![
            ("role".to_string(), Json::String("user".to_string())),
            ("content".to_string(), Json::String("hi".to_string())),
        ])
    );
    let tool = Message::Tool(ToolMessage {
        content: "c".to_string(),
        tool_call_id: "id".to_string(),
    });
    assert_eq!(
        String::from_utf8(tool.to_json().to_bytes().unwrap()).unwrap(),
        "{\"content\":\"c\",\"role\":\"tool\",\"tool_call_id\":\"id\"}"
    );
}

#[test]
fn a_message_without_a_known_role_is_not_read() {
    for text in [
        "{\"content\": \"x\"}",
        "{\"role\": \"robot\", \"content\": \"x\"}",
        "{\"role\": 1, \"content\": \"x\"}",
        "{\"role\": \"user\"}",
        "{\"role\": \"user\", \"content\": null}",
        "{\"role\": \"user\", \"content\": \"x\", \"name\": 5}",
        "{\"role\": \"tool\", \"content\": \"x\"}",
        "{\"role\": \"assistant\", \"content\": \"x\", \"tool_calls\": {}}",
        "{\"role\": \"assistant\", \"content\": \"x\", \"tool_calls\": [{\"id\": \"1\"}]}",
        "[]",
    ] {
        let doc = Json::parse(text.as_bytes()).expect("JSON");
        assert_eq!(Message::from_json(&doc), None, "{}", text);
    }
    let doc = Json::parse(b"{\"content\": \"x\", \"name\": null, \"extra\": 1, \"role\": \"user\"}").unwrap();
    assert_eq!(Message::from_json(&doc), Some(user("x")));
}

#[test]
fn a_full_response_is_decoded() {
    let body = b"{
        \"id\": \"chatcmpl-1\",
        \"object\": \"chat.completion\",
        \"created\": 1700000000,
        \"model\": \"deepseek-ai/DeepSeek-V3\",
        \"choices\": [
            {\"index\": 0, \"message\": {\"role\": \"assistant\", \"content\": \"4\"}, \"finish_reason\": \"stop\"}
        ],
        \"usage\": {\"prompt_tokens\": 12, \"total_tokens\": 13, \"completion_tokens\": 1}
    }";
    let response = decode_chat_completion(body).expect("a chat completion");
    assert_eq!(
        response,
        ChatCompletionResponse {
            id: Some("chatcmpl-1".to_string()),
            object: Some("chat.completion".to_string()),
            created: Some(1700000000),
            model: Some("deepseek-ai/DeepSeek-V3".to_string()),
            choices: vec![Choice {
                index: 0,
                message: Message::Assistant(AssistantMessage {
                    content: "4".to_string(),
                    name: None,
                    tool_calls: None,
                }),
                finish_reason: "stop".to_string(),
            }],
            usage: Some(Usage {
                prompt_tokens: 12,
                total_tokens: 13,
                completion_tokens: 1,
            }),
        }
    );
    let again = ChatCompletionResponse::from_json(&response.to_json());
    assert_eq!(again, Some(response));
}

#[test]
fn a_minimal_response_is_decoded() {
    let response = decode_chat_completion(b"{\"choices\": [], \"id\": null}").expect("a response");
    assert_eq!(
        response,
        ChatCompletionResponse {
            id: None,
            object: None,
            created: None,
            model: None,
            choices: vec![],
            usage: None,
        }
    );
    let negative = decode_chat_completion(
        b"{\"created\": -5, \"choices\": [{\"index\": -1, \"message\": {\"role\": \"user\", \"content\": \"\"}, \"finish_reason\": \"\"}]}",
    )
    .expect("a response");
    assert_eq!(negative.created, Some(-5));
    assert_eq!(negative.choices[0].index, -1);
}

#[test]
fn a_body_that_is_no_chat_completion_is_a_decode_failure() {
    for text in [
        "{\"detail\": \"bad request\"}",
        "{}",
        "{\"choices\": null}",
        "{\"choices\": [{\"index\": 0}]}",
        "{\"choices\": [], \"id\": 7}",
        "{\"choices\": [], \"created\": 1.5}",
        "{\"choices\": [], \"created\": 9223372036854775808}",
        "{\"choices\": [], \"usage\": {\"prompt_tokens\": 1}}",
        "{\"choices\": [], \"usage\": {\"prompt_tokens\": 2147483648, \"total_tokens\": 1, \"completion_tokens\": 1}}",
        "{\"choices\": [{\"index\": 2147483648, \"message\": {\"role\": \"user\", \"content\": \"\"}, \"finish_reason\": \"\"}]}",
        "<html>",
        "",
    ] {
        assert_eq!(
            decode_chat_completion(text.as_bytes()),
            Err(decode_failure()),
            "{}",
            text
        );
    }
    assert_eq!(chat_completion_result(None), Err(decode_failure()));
    assert_eq!(decode_failure().describe(), "Request errored error decoding response body");
}

#[test]
fn tools_and_formats_take_their_defaults_when_read() {
    assert_eq!(default_tool_type(), "function");
    assert_eq!(default_response_format_type(), ResponseFormatType::Text);
    let tool = Json::parse(
        b"{\"function\": {\"name\": \"f\", \"description\": \"d\", \"parameters\": null}}",
    )
    .unwrap();
    assert_eq!(
        ChatTool::from_json(&tool),
        Some(ChatTool {
            type_: "function".to_string(),
            function: FunctionDefinition {
                name: "f".to_string(),
                description: "d".to_string(),
                parameters: Json::Null,
            },
        })
    );
    let untyped = Json::parse(b"{\"type\": null, \"function\": {\"name\": \"f\", \"description\": \"d\", \"parameters\": 1}}").unwrap();
    assert_eq!(ChatTool::from_json(&untyped), None);
    let no_parameters = Json::parse(b"{\"function\": {\"name\": \"f\", \"description\": \"d\"}}").unwrap();
    assert_eq!(ChatTool::from_json(&no_parameters), None);
    assert_eq!(
        ResponseFormat::from_json(&Json::parse(b"{}").unwrap()),
        Some(ResponseFormat {
            response_type: ResponseFormatType::Text
        })
    );
    assert_eq!(
        ResponseFormat::from_json(&Json::parse(b"{\"type\": \"json_object\"}").unwrap()),
        Some(ResponseFormat {
            response_type: ResponseFormatType::JsonObject
        })
    );
    assert_eq!(ResponseFormat::from_json(&Json::parse(b"{\"type\": \"xml\"}").unwrap()), None);
    assert_eq!(ResponseFormat::from_json(&Json::parse(b"5").unwrap()), None);
    let format = ResponseFormat {
        response_type: ResponseFormatType::Text,
    };
    assert_eq!(
        String::from_utf8(format.to_json().to_bytes().unwrap()).unwrap(),
        "{\"type\":\"text\"}"
    );
}

#[test]
fn a_parameter_that_is_not_finite_is_sent_as_null() {
    let mut request = ChatCompletionRequest::new(vec![user("hi")]);
    request.temperature = Parameter::NotFinite;
    request.min_p = Parameter::Finite(Number::Unsigned(1));
    assert_eq!(request.to_json().get("temperature"), Some(&Json::Null));
    let parsed: serde_json::Value =
        serde_json::from_slice(&request.body().expect("a body")).expect("valid JSON");
    assert!(parsed["temperature"].is_null());
    assert_eq!(parsed["min_p"].as_u64(), Some(1));
    assert_eq!(parsed["top_p"].as_f64(), Some(1.0));
    assert_eq!(parsed.as_object().unwrap().len(), 12);
    assert_eq!(
        Parameter::of_text("0.5"),
        Parameter::Finite(Number::Real("0.5".to_string()))
    );
}

#[test]
fn only_an_answer_with_a_success_status_is_decoded() {
    let body = b"{\"choices\": [{\"index\": 0, \"message\": {\"role\": \"assistant\", \"content\": \"4\"}, \"finish_reason\": \"stop\"}]}";
    for status in [200u16, 201, 204, 299] {
        let response = chat_completion_reply(status, body).expect("a chat completion");
        assert_eq!(response.choices.len(), 1, "status {}", status);
    }
    for (status, text) in [
        (404u16, "HTTP status error (404)"),
        (500, "HTTP status error (500)"),
        (199, "HTTP status error (199)"),
        (300, "HTTP status error (300)"),
        (100, "HTTP status error (100)"),
        (0, "HTTP status error (0)"),
        (65535, "HTTP status error (65535)"),
    ] {
        assert_eq!(
            chat_completion_reply(status, body),
            Err(ChatCompletionError::ReqwestError(text.to_string())),
            "status {}",
            status
        );
    }
    assert_eq!(chat_completion_reply(200, b"{\"detail\": \"bad\"}"), Err(decode_failure()));
    assert_eq!(
        chat_completion_reply(422, b"{\"detail\": \"bad\"}"),
        Err(ChatCompletionError::ReqwestError(
            "HTTP status error (422)".to_string()
        ))
    );
}
