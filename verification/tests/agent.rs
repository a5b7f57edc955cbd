//! The agent: building it, one conversation step at a time, and reading
//! replies.

use pgui::agent::client::{
    create_get_schema_tool, create_get_table_columns_tool, create_get_tables_tool,
    interpret_response, is_api_error, Agent, AgentError, DEFAULT_SYSTEM_PROMPT,
};
use pgui::agent::types::{
    AgentResponse, AnthropicResponse, ContentBlock, Message, ToolResultData, Usage,
};

fn agent() -> Agent {
    Agent::new(vec![create_get_tables_tool()], Some("k".to_string()), "test-model".to_string())
        .unwrap()
}

fn reply(content: Vec<ContentBlock>) -> AnthropicResponse {
    AnthropicResponse {
        id: "msg_1".to_string(),
        response_type: "message".to_string(),
        role: "assistant".to_string(),
        content,
        model: "test-model".to_string(),
        stop_reason: Some("end_turn".to_string()),
        usage: Usage { input_tokens: 1, output_tokens: 1 },
    }
}

fn text(t: &str) -> ContentBlock {
    ContentBlock::Text { text: t.to_string() }
}

#[test]
fn test_agent_builder() {
    let agent = Agent::builder()
        .api_key("test-key".to_string())
        .model("sonnet-4.5-20250929".to_string())
        .system_prompt("You are a test assistant".to_string())
        .max_tokens(2048)
        .build(vec![], None);

    assert!(agent.is_ok());
}

#[test]
fn building_without_any_key_fails() {
    let r = Agent::builder().build(vec![], None);
    match r {
        Err(e) => {
            assert!(matches!(e, AgentError::MissingApiKey));
            assert_eq!(e.message(), "ANTHROPIC_API_KEY environment variable not set");
        }
        Ok(_) => panic!("expected a missing-key error"),
    }
    assert!(Agent::new(vec![], None, "m".to_string()).is_err());
    assert!(Agent::builder().build(vec![], Some("env".to_string())).is_ok());
}

#[test]
fn new_agent_uses_the_defaults() {
    let a = agent();
    assert!(a.get_conversation().is_empty());
    assert_eq!(Agent::default_system_prompt(), DEFAULT_SYSTEM_PROMPT);
    let defs = a.get_tool_definitions();
    assert_eq!(defs.len(), 1);
    assert_eq!(defs[0].name, "get_tables");
    let req = a.clone_for_inference().build_request();
    assert_eq!(req.model, "test-model");
    assert_eq!(req.max_tokens, 4096);
    assert_eq!(req.system.as_deref(), Some(DEFAULT_SYSTEM_PROMPT));
    assert_eq!(req.tools.map(|t| t.len()), Some(1));
}

#[test]
fn a_step_records_the_question_and_the_reply() {
    let mut a = agent();
    let inf = a.begin_chat_step(vec![text("hi")]);
    assert_eq!(inf.conversation.len(), 1);
    assert_eq!(inf.api_key(), "k");
    let r = a.finish_chat_step(Ok(reply(vec![text("hello")]))).unwrap();
    match r {
        AgentResponse::TextResponse { text, stop_reason } => {
            assert_eq!(text, "hello");
            assert_eq!(stop_reason.as_deref(), Some("end_turn"));
        }
        _ => panic!("expected text"),
    }
    let conv = a.get_conversation();
    assert_eq!(conv.len(), 2);
    assert!(matches!(&conv[0], Message::User { role, .. } if role == "user"));
    assert!(matches!(&conv[1], Message::Assistant { role, .. } if role == "assistant"));
}

#[test]
fn a_failed_step_takes_the_question_back() {
    let mut a = agent();
    a.add_user_message("earlier".to_string());
    let before = a.get_conversation().len();
    let _ = a.begin_chat_step(vec![text("hi")]);
    let r = a.finish_chat_step(Err(AgentError::Request { message: "timeout".to_string() }));
    assert!(matches!(r, Err(AgentError::Request { ref message }) if message == "timeout"));
    assert_eq!(a.get_conversation().len(), before);
}

#[test]
fn tool_calls_are_collected_with_the_last_text() {
    let content = vec![
        text("first"),
        ContentBlock::ToolUse { id: "t1".to_string(), name: "get_tables".to_string(), input: "{}".to_string() },
        text("second"),
        ContentBlock::ToolUse { id: "t2".to_string(), name: "get_schema".to_string(), input: "{}".to_string() },
    ];
    match interpret_response(&content, None, false).unwrap() {
        AgentResponse::ToolCallRequest { text, tool_calls, stop_reason } => {
            assert_eq!(text.as_deref(), Some("second"));
            assert_eq!(tool_calls.len(), 2);
            assert_eq!(tool_calls[0].id, "t1");
            assert_eq!(tool_calls[1].name, "get_schema");
            assert!(stop_reason.is_none());
        }
        _ => panic!("expected tool calls"),
    }
}

#[test]
fn an_empty_reply_is_an_error() {
    let e = interpret_response(&vec![], None, false).unwrap_err();
    assert_eq!(e.message(), "No text or tool calls in assistant response");
    let e = interpret_response(&vec![text("")], None, true).unwrap_err();
    assert_eq!(e.message(), "No text or tool calls in stateless response");
}

#[test]
fn stateless_requests_leave_the_conversation_alone() {
    let a = agent();
    let inf = a.stateless_inference(vec![text("explain")]);
    assert_eq!(inf.conversation.len(), 1);
    assert!(a.get_conversation().is_empty());
}

#[test]
fn tool_results_go_back_as_one_user_message() {
    let mut a = agent();
    a.submit_tool_results(vec![
        ToolResultData { tool_use_id: "t1".to_string(), content: "[]".to_string(), is_error: false },
        ToolResultData { tool_use_id: "t2".to_string(), content: "boom".to_string(), is_error: true },
    ]);
    let conv = a.get_conversation();
    assert_eq!(conv.len(), 1);
    match &conv[0] {
        Message::User { content, .. } => {
            assert_eq!(content.len(), 2);
            assert!(matches!(&content[1], ContentBlock::ToolResult { tool_use_id, is_error: Some(true), .. } if tool_use_id == "t2"));
        }
        _ => panic!("expected a user message"),
    }
    a.clear_conversation();
    assert!(a.get_conversation().is_empty());
}

#[test]
fn settings_can_be_changed_later() {
    let mut a = agent();
    a.set_model("other".to_string());
    a.set_max_tokens(10);
    a.set_system_prompt("p".to_string());
    let req = a.clone_for_inference().build_request();
    assert_eq!(req.model, "other");
    assert_eq!(req.max_tokens, 10);
    assert_eq!(req.system.as_deref(), Some("p"));
}

#[test]
fn api_errors_are_recognized() {
    assert!(is_api_error(r#"{"type":"error","error":{"type":"overloaded_error"}}"#));
    assert!(!is_api_error(r#"{"type":"message"}"#));
}

#[test]
fn database_tools_are_named() {
    assert_eq!(create_get_schema_tool().name, "get_schema");
    assert_eq!(create_get_tables_tool().name, "get_tables");
    let t = create_get_table_columns_tool();
    assert_eq!(t.name, "get_table_columns");
    assert!(t.input_schema.contains("table_name"));
}
