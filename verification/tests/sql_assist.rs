//! AI code actions and completions in the SQL editor.

use pgui::agent::client::AgentError;
use pgui::agent::types::{AgentResponse, InlineCompletionRequest};
use pgui::sql::code_action::{
    action_result_text, available_code_actions, build_code_action_agent, build_prompt,
    explain_comment, parse_action_request, plan_edit, source_range, sql_for_prompt,
    strip_code_fences, ActionRequest, ActionType, EditorCodeActions, SqlCodeActionProvider,
};
use pgui::sql::completion::{
    build_completion_agent, build_completion_prompt, completion_from_response,
    context_start_row, filter_completions, is_completion_trigger, is_mid_word,
    prev_char_offset, slash_commands, slash_replace_start, trigger_kind, CompletionAnswer,
    SqlCompletionProvider, TriggerKind,
};

fn text_reply(t: &str) -> Result<AgentResponse, AgentError> {
    Ok(AgentResponse::TextResponse { text: t.to_string(), stop_reason: None })
}

#[test]
fn action_types_and_tags() {
    assert_eq!(ActionType::Complete.title(), "AI: Complete SQL");
    assert_eq!(ActionType::Explain.title(), "AI: Explain SQL");
    assert_eq!(ActionType::Optimize.as_str(), "optimize");
    assert_eq!(ActionType::from_str("explain"), Some(ActionType::Explain));
    assert_eq!(ActionType::from_str("EXPLAIN"), None);
    for a in [ActionType::Complete, ActionType::Explain, ActionType::Optimize] {
        assert_eq!(ActionType::from_str(a.as_str()), Some(a));
    }
}

#[test]
fn actions_offered_depend_on_content_and_selection() {
    assert!(available_code_actions(false, "select 1", 0, 0).is_empty());
    let blank = available_code_actions(true, "   \n", 2, 2);
    assert_eq!(blank.len(), 1);
    assert_eq!(blank[0].action, ActionType::Complete);
    let full = available_code_actions(true, "select 1", 0, 0);
    let kinds: Vec<ActionType> = full.iter().map(|a| a.action).collect();
    assert_eq!(kinds, vec![ActionType::Complete, ActionType::Explain, ActionType::Optimize]);
    assert_eq!(available_code_actions(true, "", 1, 4).len(), 3);
}

#[test]
fn action_data_is_read_back() {
    let r = parse_action_request(Some("optimize"), Some(3), None).unwrap();
    assert_eq!(r, ActionRequest { action: ActionType::Optimize, selection_start: 3, selection_end: 0 });
    assert!(parse_action_request(Some("rewrite"), Some(1), Some(2)).is_none());
    assert!(parse_action_request(None, Some(1), Some(2)).is_none());
    assert_eq!(source_range(&r, 40), (3, 0));
    let whole = ActionRequest { action: ActionType::Explain, selection_start: 5, selection_end: 5 };
    assert_eq!(source_range(&whole, 40), (0, 40));
}

#[test]
fn prompts_carry_the_sql_and_schema() {
    let p = build_prompt(ActionType::Explain, "select 1", &Some("t(a int)".to_string()));
    assert_eq!(
        p,
        "Explain what this SQL query does in plain English. Be concise but thorough.\n\nselect 1\n\nDatabase schema:\nt(a int)"
    );
    let c = build_prompt(ActionType::Complete, "x", &None);
    assert!(c.starts_with("Complete this SQL query at [CURSOR]."));
    assert!(c.ends_with("\n\nx"));
    assert_eq!(sql_for_prompt(ActionType::Complete, "ignored", "sel", "ect"), "sel[CURSOR]ect");
    assert_eq!(sql_for_prompt(ActionType::Optimize, "select 1", "a", "b"), "select 1");
}

#[test]
fn code_fences_are_stripped() {
    assert_eq!(strip_code_fences("```sql\nSELECT 1;\n```"), "SELECT 1;");
    assert_eq!(strip_code_fences("  ```\nSELECT 2\n```  "), "SELECT 2");
    assert_eq!(strip_code_fences("SELECT 3"), "SELECT 3");
    assert_eq!(strip_code_fences("```"), "");
    assert_eq!(action_result_text(&text_reply("```sql\n```")), None);
    assert_eq!(action_result_text(&text_reply("```sql\nSELECT 4\n```")).as_deref(), Some("SELECT 4"));
    assert_eq!(action_result_text(&Err(AgentError::MissingApiKey)), None);
}

#[test]
fn results_are_applied_as_edits() {
    let complete = ActionRequest { action: ActionType::Complete, selection_start: 0, selection_end: 0 };
    let e = plan_edit(&complete, " FROM t", 6, 6);
    assert_eq!((e.start, e.end, e.new_text.as_str()), (6, 6, " FROM t"));
    let explain = ActionRequest { action: ActionType::Explain, selection_start: 4, selection_end: 9 };
    let e = plan_edit(&explain, "Reads rows.\nFrom t.", 0, 20);
    assert_eq!((e.start, e.end), (4, 4));
    assert_eq!(e.new_text, "-- Reads rows.\n-- From t.\n");
    let optimize = ActionRequest { action: ActionType::Optimize, selection_start: 2, selection_end: 2 };
    let e = plan_edit(&optimize, "SELECT 1", 0, 17);
    assert_eq!((e.start, e.end), (0, 17));
    assert_eq!(explain_comment("a\r\nb"), "-- a\n-- b");
}

#[test]
fn the_code_action_provider_keeps_its_schema() {
    let mut p = SqlCodeActionProvider::new(None, "m".to_string());
    assert!(p.agent().is_none());
    assert!(p.get_schema().is_none());
    p.set_schema("s".to_string());
    assert_eq!(p.get_schema().as_deref(), Some("s"));
    let a = build_code_action_agent(Some("k".to_string()), "m".to_string()).unwrap();
    assert_eq!(a.clone_for_inference().build_request().max_tokens, 2048);
    assert!(SqlCodeActionProvider::new(Some("k".to_string()), "m".to_string()).agent().is_some());
}

#[test]
fn completion_triggers() {
    assert!(is_completion_trigger("s"));
    assert!(is_completion_trigger("_x"));
    assert!(is_completion_trigger("/"));
    assert!(!is_completion_trigger("1"));
    assert!(!is_completion_trigger(""));
    assert_eq!(trigger_kind(""), TriggerKind::Empty);
    assert_eq!(trigger_kind("/da"), TriggerKind::Slash);
    assert_eq!(trigger_kind("sel"), TriggerKind::Word);
    assert!(is_mid_word('a') && is_mid_word('_') && !is_mid_word(' '));
    assert_eq!(prev_char_offset(10, 3), Some(6));
    assert_eq!(prev_char_offset(3, 3), None);
    assert_eq!(slash_replace_start(5, 2), 3);
    assert_eq!(slash_replace_start(1, 2), 0);
}

#[test]
fn keyword_completions_match_the_trigger() {
    let labels: Vec<String> = ["SELECT", "SET", "FROM", "SELECT DISTINCT"].iter().map(|s| s.to_string()).collect();
    let m = filter_completions(&labels, "SE");
    let picked: Vec<(usize, &str)> = m.iter().map(|c| (c.index, c.insert_text.as_str())).collect();
    assert_eq!(picked, vec![(0, "LECT"), (1, "T"), (3, "LECT DISTINCT")]);
    let many: Vec<String> = (0..15).map(|i| format!("a{}", i)).collect();
    assert_eq!(filter_completions(&many, "a").len(), 10);
}

#[test]
fn the_completion_provider_answers_requests() {
    let mut p = SqlCompletionProvider::new(vec!["SELECT".to_string()], None, "m".to_string());
    p.add_schema_completions(vec!["users".to_string()]);
    assert_eq!(p.labels, vec!["SELECT", "users"]);
    assert!(matches!(p.completions(3, "", None), CompletionAnswer::Nothing));
    assert!(matches!(p.completions(2, "u", Some('x')), CompletionAnswer::Nothing));
    match p.completions(2, "u", Some(' ')) {
        CompletionAnswer::Keywords(m) => {
            assert_eq!(m.len(), 1);
            assert_eq!(m[0].index, 1);
            assert_eq!(m[0].insert_text, "sers");
        }
        _ => panic!("expected keywords"),
    }
    match p.completions(7, "/da", None) {
        CompletionAnswer::Slash { commands, replace_start } => {
            assert_eq!(replace_start, 4);
            assert_eq!(commands.len(), 7);
            assert_eq!(commands[0].label, "/date");
        }
        _ => panic!("expected slash commands"),
    }
    assert_eq!(p.inline_completion_debounce(), 600);
}

#[test]
fn inline_completions_need_switching_on_and_an_agent() {
    let mut p = SqlCompletionProvider::new(vec![], None, "m".to_string());
    p.toggle_inline_completions(true);
    assert!(p.get_inline_completions_enabled());
    assert_eq!(p.begin_inline_completion(), None);
    let mut q = SqlCompletionProvider::new(vec![], Some("k".to_string()), "m".to_string());
    assert_eq!(q.begin_inline_completion(), None);
    q.toggle_inline_completions(true);
    assert_eq!(q.begin_inline_completion(), Some(0));
    assert_eq!(q.begin_inline_completion(), Some(1));
    assert_eq!(q.next_request_id(), 2);
    q.add_schema("t(a)".to_string());
    assert_eq!(q.get_schema().as_deref(), Some("t(a)"));
    assert!(build_completion_agent(None, "m".to_string()).is_none());
}

#[test]
fn inline_completion_prompts_and_replies() {
    let req = InlineCompletionRequest {
        request_id: 1,
        prefix: "SELECT * FR".to_string(),
        suffix: " WHERE".to_string(),
        context: Some("-- users".to_string()),
    };
    let p = build_completion_prompt(&req, &Some("users(id)".to_string()));
    assert_eq!(
        p,
        "Complete this SQL:\nSELECT * FR[cursor] WHERE\n\nPrevious lines:\n-- users\n\nSchema: users(id)\n"
    );
    let bare = InlineCompletionRequest { request_id: 2, prefix: "SEL".to_string(), suffix: String::new(), context: None };
    assert_eq!(build_completion_prompt(&bare, &None), "Complete this SQL:\nSEL");
    assert_eq!(context_start_row(0), None);
    assert_eq!(context_start_row(4), Some(0));
    assert_eq!(context_start_row(25), Some(15));
    assert!(completion_from_response(&Err(AgentError::MissingApiKey)).is_none());
}

#[test]
fn slash_commands_insert_fixed_text() {
    let v = slash_commands("2024-01-02".to_string());
    assert_eq!(v[0].text, "2024-01-02");
    assert_eq!(v[1].text, "Thank you!");
    assert_eq!(v[6].label, "/launch");
}

#[test]
fn performing_an_action_prompts_and_edits() {
    let mut p = SqlCodeActionProvider::new(Some("k".to_string()), "m".to_string());
    assert_eq!(p.id(), "SqlAIAssist");
    assert_eq!(p.code_actions("select 1", 0, 0).len(), 3);
    assert_eq!(p.code_actions("", 0, 0).len(), 1);
    p.set_schema("t(a)".to_string());
    let mut editor = EditorCodeActions::new();
    assert!(p.perform_code_action(&mut editor, Some("shrink"), None, None).is_none());
    assert!(!editor.loading);
    let job = p.perform_code_action(&mut editor, Some("complete"), Some(3), Some(3)).unwrap();
    assert!(editor.loading);
    assert_eq!(job.request.action, ActionType::Complete);
    assert_eq!(job.schema.as_deref(), Some("t(a)"));
    let prompt = job.prompt("ignored", "SEL", " FROM t");
    assert!(prompt.ends_with("SEL[CURSOR] FROM t\n\nDatabase schema:\nt(a)"));
    assert!(job.edit_for(&mut editor, &text_reply("   "), 3, 10).is_none());
    assert!(editor.loading);
    let edit = job.edit_for(&mut editor, &text_reply("```sql\nECT *\n```"), 3, 10).unwrap();
    assert_eq!((edit.start, edit.end, edit.new_text.as_str()), (3, 3, "ECT *"));
    assert!(!editor.loading);
    let none = SqlCodeActionProvider::new(None, "m".to_string());
    assert!(none.code_actions("select 1", 0, 0).is_empty());
    let mut idle = EditorCodeActions::new();
    assert!(none.perform_code_action(&mut idle, Some("nonsense"), None, None).is_none());
    assert!(!idle.loading);
}
