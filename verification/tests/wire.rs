use rig_extra::bigmodel::ApiResponse;
use rig_extra::bigmodel::AssistantContent;
use rig_extra::bigmodel::CallFunction;
use rig_extra::bigmodel::ChatMessage;
use rig_extra::bigmodel::Choice;
use rig_extra::bigmodel::CompletionRequest;
use rig_extra::bigmodel::CompletionResponse;
use rig_extra::bigmodel::Message;
use rig_extra::bigmodel::ToolCall;
use rig_extra::bigmodel::ToolCallInput;
use rig_extra::bigmodel::ToolDefinition;
use rig_extra::bigmodel::ToolResultInput;
use rig_extra::bigmodel::ToolResultPart;
use rig_extra::bigmodel::ToolType;
use rig_extra::bigmodel::Usage;
use rig_extra::bigmodel::UserContent;
use rig_extra::bigmodel::interpret_api_response;
use rig_extra::bigmodel::request_url;
use rig_extra::error::PromptError;

fn usage() -> Usage {
    Usage { completion_tokens: 1, prompt_tokens: 2, total_tokens: 3 }
}

fn reply_with(message: Message) -> CompletionResponse {
    CompletionResponse {
        choices: vec![Choice { finish_reason: "stop".to_string(), index: 0, message }],
        created: 0,
        id: "r1".to_string(),
        model: "glm-4-flash".to_string(),
        request_id: "req1".to_string(),
        usage: usage(),
    }
}

#[test]
fn user_texts_collapse_with_single_spaces() {
    let message = ChatMessage::User {
        content: vec![
            UserContent::Text("Hello".to_string()),
            UserContent::Image("ZGF0YQ==".to_string()),
            UserContent::Text("world".to_string()),
            UserContent::Other,
        ],
    };
    match Message::try_from_chat(&message) {
        Ok(Message::User { content }) => assert_eq!(content, "Hello world"),
        other => panic!("expected a user wire message, got {:?}", other),
    }
}

#[test]
fn first_tool_result_preempts_the_rest_of_the_message() {
    let message = ChatMessage::User {
        content: vec![
            UserContent::Text("ignored".to_string()),
            UserContent::ToolResult(ToolResultInput {
                id: "call-9".to_string(),
                content: vec![
                    ToolResultPart::Text("first".to_string()),
                    ToolResultPart::Text("second".to_string()),
                ],
            }),
            UserContent::Text("also ignored".to_string()),
        ],
    };
    match Message::try_from_chat(&message) {
        Ok(Message::ToolResult { tool_call_id, content }) => {
            assert_eq!(tool_call_id, "call-9");
            assert_eq!(content, "first");
        }
        other => panic!("expected a tool-result wire message, got {:?}", other),
    }
}

#[test]
fn non_text_tool_results_are_refused() {
    let message = ChatMessage::User {
        content: vec![UserContent::ToolResult(ToolResultInput {
            id: "call-1".to_string(),
            content: vec![
                ToolResultPart::Text("ok".to_string()),
                ToolResultPart::Image("ZGF0YQ==".to_string()),
            ],
        })],
    };
    match Message::try_from_chat(&message) {
        Err(PromptError::Conversion { reason }) => {
            assert_eq!(reason, "Non-text tool results not supported");
        }
        other => panic!("expected a conversion error, got {:?}", other),
    }
}

#[test]
fn empty_tool_results_are_refused() {
    let message = ChatMessage::User {
        content: vec![UserContent::ToolResult(ToolResultInput {
            id: "call-2".to_string(),
            content: vec![],
        })],
    };
    match Message::try_from_chat(&message) {
        Err(PromptError::Conversion { reason }) => {
            assert_eq!(reason, "Couldn't make a OneOrMany from a list of tool results");
        }
        other => panic!("expected a conversion error, got {:?}", other),
    }
}

#[test]
fn assistant_messages_carry_texts_and_tool_calls() {
    let message = ChatMessage::Assistant {
        content: vec![
            AssistantContent::Text("thinking".to_string()),
            AssistantContent::ToolCall(ToolCallInput {
                id: "call-3".to_string(),
                name: "lookup".to_string(),
                arguments: "{\"q\":1}".to_string(),
            }),
            AssistantContent::Text("done".to_string()),
        ],
    };
    match Message::try_from_chat(&message) {
        Ok(Message::Assistant { content, tool_calls }) => {
            assert_eq!(content, Some("thinking done".to_string()));
            assert_eq!(tool_calls.len(), 1);
            assert_eq!(tool_calls[0].id, "call-3");
            assert_eq!(tool_calls[0].index, 0);
            assert!(matches!(tool_calls[0].tool_type, ToolType::Function));
            assert_eq!(tool_calls[0].function.name, "lookup");
            assert_eq!(tool_calls[0].function.arguments, "{\"q\":1}");
        }
        other => panic!("expected an assistant wire message, got {:?}", other),
    }
}

#[test]
fn tool_result_wire_form_uses_first_part_or_image_marker() {
    let with_text = Message::from_tool_result(
        "id-1",
        &vec![ToolResultPart::Text("value".to_string())],
    );
    match with_text {
        Message::ToolResult { tool_call_id, content } => {
            assert_eq!(tool_call_id, "id-1");
            assert_eq!(content, "value");
        }
        other => panic!("unexpected message {:?}", other),
    }
    let with_image = Message::from_tool_result(
        "id-2",
        &vec![ToolResultPart::Image("ZGF0YQ==".to_string())],
    );
    match with_image {
        Message::ToolResult { content, .. } => assert_eq!(content, "[Image]"),
        other => panic!("unexpected message {:?}", other),
    }
}

#[test]
fn reply_without_choices_is_a_response_error() {
    let response = CompletionResponse {
        choices: vec![],
        created: 0,
        id: "r".to_string(),
        model: "m".to_string(),
        request_id: "q".to_string(),
        usage: usage(),
    };
    match response.extract_reply() {
        Err(PromptError::Response { reason }) => {
            assert_eq!(reason, "Response contained no choices");
        }
        other => panic!("expected a response error, got {:?}", other),
    }
}

#[test]
fn reply_with_plain_text_yields_that_text() {
    let response = reply_with(Message::Assistant {
        content: Some("an answer".to_string()),
        tool_calls: vec![],
    });
    let replies = response.extract_reply().expect("text reply extracts");
    assert_eq!(replies.len(), 1);
    match &replies[0] {
        AssistantContent::Text(t) => assert_eq!(t, "an answer"),
        other => panic!("expected text, got {:?}", other),
    }
}

#[test]
fn reply_without_content_yields_empty_text() {
    let response = reply_with(Message::Assistant { content: None, tool_calls: vec![] });
    let replies = response.extract_reply().unwrap();
    match &replies[0] {
        AssistantContent::Text(t) => assert_eq!(t, ""),
        other => panic!("expected text, got {:?}", other),
    }
}

#[test]
fn reply_tool_calls_are_keyed_by_function_name() {
    let response = reply_with(Message::Assistant {
        content: None,
        tool_calls: vec![ToolCall {
            function: CallFunction {
                name: "search".to_string(),
                arguments: "{}".to_string(),
            },
            id: "wire-id".to_string(),
            index: 4,
            tool_type: ToolType::Function,
        }],
    });
    let replies = response.extract_reply().unwrap();
    assert_eq!(replies.len(), 1);
    match &replies[0] {
        AssistantContent::ToolCall(tc) => {
            // The extraction keys the call by its function name, not the
            // wire id.
            assert_eq!(tc.id, "search");
            assert_eq!(tc.name, "search");
            assert_eq!(tc.arguments, "{}");
        }
        other => panic!("expected a tool call, got {:?}", other),
    }
}

#[test]
fn reply_from_a_non_assistant_message_is_refused() {
    let response = reply_with(Message::User { content: "echo".to_string() });
    match response.extract_reply() {
        Err(PromptError::Response { reason }) => {
            assert_eq!(reason, "Chat response does not include an assistant message");
        }
        other => panic!("expected a response error, got {:?}", other),
    }
}

#[test]
fn error_envelopes_become_provider_errors() {
    let parsed = ApiResponse::Failure { message: "quota exceeded".to_string() };
    match interpret_api_response(&parsed) {
        Err(PromptError::Provider { message }) => assert_eq!(message, "quota exceeded"),
        other => panic!("expected a provider error, got {:?}", other),
    }
}

#[test]
fn request_assembles_preamble_history_and_tools() {
    let request = CompletionRequest {
        preamble: Some("be helpful".to_string()),
        documents: Some(ChatMessage::User {
            content: vec![UserContent::Text("doc body".to_string())],
        }),
        chat_history: vec![ChatMessage::User {
            content: vec![UserContent::Text("hi".to_string())],
        }],
        tools: vec![ToolDefinition {
            name: "search".to_string(),
            description: "finds things".to_string(),
            parameters: "{\"type\":\"object\"}".to_string(),
        }],
    };
    let out = rig_extra::bigmodel::create_completion_request("glm-4-flash", &request)
        .expect("request assembles");
    assert_eq!(out.model, "glm-4-flash");
    assert_eq!(out.messages.len(), 3);
    assert!(matches!(&out.messages[0], Message::System { content } if content == "be helpful"));
    assert!(matches!(&out.messages[1], Message::User { content } if content == "doc body"));
    assert!(matches!(&out.messages[2], Message::User { content } if content == "hi"));
    assert_eq!(out.tools.len(), 1);
    assert_eq!(out.tools[0].type_field, "function");
    assert_eq!(out.tools[0].function.name, "search");
    assert_eq!(out.tool_choice, Some("auto".to_string()));
}

#[test]
fn request_without_tools_has_no_tool_choice() {
    let request = CompletionRequest {
        preamble: None,
        documents: None,
        chat_history: vec![ChatMessage::Assistant {
            content: vec![AssistantContent::Text("earlier".to_string())],
        }],
        tools: vec![],
    };
    let out = rig_extra::bigmodel::create_completion_request("glm-4-flash", &request).unwrap();
    assert_eq!(out.messages.len(), 1);
    assert!(out.tool_choice.is_none());
    assert!(out.tools.is_empty());
}

#[test]
fn request_fails_on_the_first_bad_message() {
    let request = CompletionRequest {
        preamble: None,
        documents: None,
        chat_history: vec![
            ChatMessage::User { content: vec![UserContent::Text("fine".to_string())] },
            ChatMessage::User {
                content: vec![UserContent::ToolResult(ToolResultInput {
                    id: "c".to_string(),
                    content: vec![],
                })],
            },
        ],
        tools: vec![],
    };
    match rig_extra::bigmodel::create_completion_request("m", &request) {
        Err(PromptError::Conversion { reason }) => {
            assert_eq!(reason, "Couldn't make a OneOrMany from a list of tool results");
        }
        other => panic!("expected a conversion error, got {:?}", other),
    }
}

#[test]
fn system_messages_wrap_their_text() {
    match Message::system("rules") {
        Message::System { content } => assert_eq!(content, "rules"),
        other => panic!("unexpected message {:?}", other),
    }
}

#[test]
fn request_urls_collapse_doubled_slashes() {
    assert_eq!(
        request_url("https://open.bigmodel.cn/api/paas/v4/", "/chat/completions"),
        "https:/open.bigmodel.cn/api/paas/v4//chat/completions"
    );
    assert_eq!(request_url("http://host/api", "x/y"), "http:/host/api/x/y");
    assert_eq!(request_url("", ""), "/");
}
