//! AI-powered SQL code actions (complete, explain, optimize).
//!
//! Code actions are user-initiated. The editor reads its text, the model is
//! asked, and the reply becomes one text edit; this module decides which
//! actions are offered, what is asked and which edit is made.
use vstd::prelude::*;
use crate::agent::client::{Agent, AgentError};
use crate::agent::types::AgentResponse;
use crate::text::{
    chars_of, concat, ends_with, has_prefix, has_suffix, lines, lines_of, owned, push_str,
    starts_with, string_from, strings_view, trim, trim_end, trim_end_seq, trim_seq, trim_start,
    trim_start_seq, is_ws, ws_run, ws_run_back,
};

verus! {

/// System prompt for SQL code actions.
pub const CODE_ACTION_SYSTEM_PROMPT: &'static str = "You are a SQL assistant. The user has explicitly requested your help with their SQL query.

RULES:
1. Return ONLY the requested content - no markdown code fences, no explanations unless asked
2. Use the provided schema to suggest correct table and column names
3. Match the existing code style (uppercase/lowercase keywords, indentation)
4. Be concise but complete
";

/// Marker placed at the cursor in a completion prompt.
pub const CURSOR_MARKER: &'static str = "[CURSOR]";

/// Instruction text of each action's prompt.
pub const COMPLETE_INSTRUCTION: &'static str =
    "Complete this SQL query at [CURSOR]. Return ONLY raw SQL to insert - no markdown, no code fences, no explanations.\n\n";

pub const EXPLAIN_INSTRUCTION: &'static str =
    "Explain what this SQL query does in plain English. Be concise but thorough.\n\n";

pub const OPTIMIZE_INSTRUCTION: &'static str =
    "Optimize this SQL query for better performance. Return ONLY raw SQL - no markdown, no code fences, no explanations.\n\n";

/// Types of AI actions available.
#[derive(Debug, Clone, Copy, PartialEq, Eq, Structural)]
pub enum ActionType {
    Complete,
    Explain,
    Optimize,
}

impl ActionType {
    pub open spec fn title_of(self) -> Seq<char> {
        match self {
            ActionType::Complete => "AI: Complete SQL"@,
            ActionType::Explain => "AI: Explain SQL"@,
            ActionType::Optimize => "AI: Optimize SQL"@,
        }
    }

    /// The tag stored in an action's data.
    pub open spec fn tag(self) -> Seq<char> {
        match self {
            ActionType::Complete => "complete"@,
            ActionType::Explain => "explain"@,
            ActionType::Optimize => "optimize"@,
        }
    }

    pub open spec fn from_tag(s: Seq<char>) -> Option<ActionType> {
        if s == "complete"@ {
            Some(ActionType::Complete)
        } else if s == "explain"@ {
            Some(ActionType::Explain)
        } else if s == "optimize"@ {
            Some(ActionType::Optimize)
        } else {
            None
        }
    }

    /// The LSP code action kind: a refactoring, except for explanations.
    pub open spec fn kind_of(self) -> Seq<char> {
        match self {
            ActionType::Explain => ""@,
            _ => "refactor"@,
        }
    }

    pub open spec fn instruction(self) -> Seq<char> {
        match self {
            ActionType::Complete => COMPLETE_INSTRUCTION@,
            ActionType::Explain => EXPLAIN_INSTRUCTION@,
            ActionType::Optimize => OPTIMIZE_INSTRUCTION@,
        }
    }

    pub fn title(&self) -> (s: &'static str)
        ensures
            s@ == self.title_of(),
    {
        match self {
            ActionType::Complete => "AI: Complete SQL",
            ActionType::Explain => "AI: Explain SQL",
            ActionType::Optimize => "AI: Optimize SQL",
        }
    }

    pub fn as_str(&self) -> (s: &'static str)
        ensures
            s@ == self.tag(),
    {
        match self {
            ActionType::Complete => "complete",
            ActionType::Explain => "explain",
            ActionType::Optimize => "optimize",
        }
    }

    pub fn from_str(s: &str) -> (r: Option<ActionType>)
        ensures
            r == ActionType::from_tag(s@),
    {
        if crate::text::str_eq(s, "complete") {
            Some(ActionType::Complete)
        } else if crate::text::str_eq(s, "explain") {
            Some(ActionType::Explain)
        } else if crate::text::str_eq(s, "optimize") {
            Some(ActionType::Optimize)
        } else {
            None
        }
    }

    /// The LSP code action kind of this action.
    pub fn kind(&self) -> (s: &'static str)
        ensures
            s@ == self.kind_of(),
    {
        match self {
            ActionType::Explain => "",
            _ => "refactor",
        }
    }

    fn instruction_text(&self) -> (s: &'static str)
        ensures
            s@ == self.instruction(),
    {
        match self {
            ActionType::Complete => COMPLETE_INSTRUCTION,
            ActionType::Explain => EXPLAIN_INSTRUCTION,
            ActionType::Optimize => OPTIMIZE_INSTRUCTION,
        }
    }
}

/// An action's tag reads back as the same action.
pub proof fn lemma_action_tag_roundtrip(a: ActionType)
    ensures
        ActionType::from_tag(a.tag()) == Some(a),
{
    reveal_strlit("complete");
    reveal_strlit("explain");
    reveal_strlit("optimize");
    assert("complete"@.len() != "explain"@.len());
    assert("complete"@[0] != "optimize"@[0]);
    assert("explain"@.len() != "optimize"@.len());
}

// ---------------------------------------------------------------------------
// Prompt
// ---------------------------------------------------------------------------

/// The prompt for an action on some SQL, with the schema appended when known.
pub open spec fn prompt_text(action: ActionType, sql: Seq<char>, schema: Option<Seq<char>>) -> Seq<
    char,
> {
    let base = action.instruction() + sql;
    match schema {
        Some(s) => base + "\n\nDatabase schema:\n"@ + s,
        None => base,
    }
}

pub fn build_prompt(action: ActionType, sql: &str, schema: &Option<String>) -> (p: String)
    ensures
        p@ == prompt_text(action, sql@, schema.deep_view()),
{
    let mut prompt = concat(action.instruction_text(), sql);
    match schema {
        Some(s) => {
            push_str(&mut prompt, "\n\nDatabase schema:\n");
            push_str(&mut prompt, s.as_str());
        },
        None => {},
    }
    prompt
}

// ---------------------------------------------------------------------------
// Reply
// ---------------------------------------------------------------------------

/// A reply without surrounding markdown code fences: the text is trimmed; a
/// leading ```` ```sql ```` (or plain ```` ``` ````) fence and a trailing
/// ```` ``` ```` fence are removed, with the whitespace next to them.
pub open spec fn fences_stripped(text: Seq<char>) -> Seq<char> {
    let t = trim_seq(text);
    let a = if has_prefix(t, "```sql"@) {
        trim_start_seq(t.skip("```sql"@.len() as int))
    } else if has_prefix(t, "```"@) {
        trim_start_seq(t.skip("```"@.len() as int))
    } else {
        t
    };
    if has_suffix(a, "```"@) {
        trim_end_seq(a.take(a.len() - "```"@.len()))
    } else {
        a
    }
}

/// Trimming leaves text that neither begins nor ends with whitespace as
/// it is.
proof fn lemma_trim_unpadded(t: Seq<char>)
    requires
        t.len() > 0,
        !is_ws(t[0]),
        !is_ws(t.last()),
    ensures
        trim_seq(t) == t,
        trim_start_seq(t) == t,
        trim_end_seq(t) == t,
{
    assert(ws_run(t, 0) == 0);
    assert(ws_run_back(t, 0, t.len() as int) == t.len());
    assert(t.subrange(0, t.len() as int) =~= t);
}

/// A reply that is SQL fenced as a code block, with or without the `sql`
/// language tag and with the fences on lines of their own, gives back
/// exactly the SQL; SQL without fences is given back as it is.
pub proof fn lemma_fenced_sql_recovered(sql: Seq<char>)
    requires
        sql.len() > 0,
        !is_ws(sql[0]),
        !is_ws(sql.last()),
    ensures
        fences_stripped("```sql\n"@ + sql + "\n```"@) == sql,
        fences_stripped("```\n"@ + sql + "\n```"@) == sql,
        !has_prefix(sql, "```"@) && !has_suffix(sql, "```"@) ==> fences_stripped(sql) == sql,
{
    reveal_strlit("```sql\n");
    reveal_strlit("```\n");
    reveal_strlit("\n```");
    reveal_strlit("```sql");
    reveal_strlit("```");
    assert(is_ws('\n'));
    lemma_trim_unpadded(sql);
    let tail = "\n```"@;
    let body = sql + tail;
    assert(body.take(body.len() - 3) =~= sql.push('\n'));
    let sp = sql.push('\n');
    assert(sp[sql.len() - 1] == sql.last());
    assert(ws_run_back(sp, 0, sql.len() as int) == sql.len());
    assert(sp[sp.len() - 1] == '\n');
    assert(ws_run_back(sp, 0, sp.len() as int) == sql.len());
    assert(sp.subrange(0, sql.len() as int) =~= sql);
    assert(trim_end_seq(sp) == sql);
    assert(body.subrange(body.len() - 3, body.len() as int) =~= "```"@);
    let b2 = seq!['\n'] + body;
    assert(b2[1] == sql[0]);
    assert(ws_run(b2, 1) == 1);
    assert(b2[0] == '\n');
    assert(ws_run(b2, 0) == 1);
    assert(b2.subrange(1, b2.len() as int) =~= body);
    assert(trim_start_seq(b2) == body);
    let f1 = "```sql\n"@ + sql + tail;
    assert(f1 =~= "```sql"@ + b2);
    lemma_trim_unpadded(f1);
    assert(f1.subrange(0, 6) =~= "```sql"@);
    assert(f1.skip(6) =~= b2);
    let f2 = "```\n"@ + sql + tail;
    assert(f2 =~= "```"@ + b2);
    lemma_trim_unpadded(f2);
    assert(f2.subrange(0, 3) =~= "```"@);
    assert(f2[3] != "```sql"@[3]);
    assert(f2.skip(3) =~= b2);
    if has_prefix(sql, "```sql"@) {
        assert(sql.subrange(0, 3) =~= sql.subrange(0, 6).subrange(0, 3));
        assert("```sql"@.subrange(0, 3) =~= "```"@);
    }
}

/// Strips markdown code fences from an AI reply.
pub fn strip_code_fences(text: &str) -> (r: String)
    ensures
        r@ == fences_stripped(text@),
{
    proof {
        reveal_strlit("```sql");
        reveal_strlit("```");
    }
    let trimmed = trim(text);
    let without_start = if starts_with(trimmed.as_str(), "```sql") {
        let v = chars_of(trimmed.as_str());
        let rest = string_from(&v, 6, v.len());
        assert(rest@ =~= trimmed@.skip(6));
        trim_start(rest.as_str())
    } else if starts_with(trimmed.as_str(), "```") {
        let v = chars_of(trimmed.as_str());
        let rest = string_from(&v, 3, v.len());
        assert(rest@ =~= trimmed@.skip(3));
        trim_start(rest.as_str())
    } else {
        trimmed
    };
    if ends_with(without_start.as_str(), "```") {
        let v = chars_of(without_start.as_str());
        let rest = string_from(&v, 0, v.len() - 3);
        assert(rest@ =~= without_start@.take(without_start@.len() - 3));
        trim_end(rest.as_str())
    } else {
        without_start
    }
}

/// The text to apply from the model's answer: a text reply without code
/// fences, when something is left. Tool requests and errors apply nothing.
pub open spec fn applied_text(r: Result<AgentResponse, AgentError>) -> Option<Seq<char>> {
    match r {
        Ok(AgentResponse::TextResponse { text, .. }) => if fences_stripped(text@).len() == 0 {
            None
        } else {
            Some(fences_stripped(text@))
        },
        _ => None,
    }
}

pub fn action_result_text(r: &Result<AgentResponse, AgentError>) -> (t: Option<String>)
    ensures
        t.deep_view() == applied_text(*r),
{
    match r {
        Ok(AgentResponse::TextResponse { text, .. }) => {
            let cleaned = strip_code_fences(text.as_str());
            if cleaned.as_str().is_empty() {
                None
            } else {
                Some(cleaned)
            }
        },
        _ => None,
    }
}

// ---------------------------------------------------------------------------
// Offered actions
// ---------------------------------------------------------------------------

/// An offered action and the selection it applies to.
#[derive(Debug, Clone, Copy, PartialEq, Eq, Structural)]
pub struct CodeActionSpec {
    pub action: ActionType,
    pub range_start: usize,
    pub range_end: usize,
}

/// The actions offered: none without an agent; otherwise Complete always,
/// plus Explain and Optimize when the editor holds non-blank text or a
/// selection.
pub open spec fn offered_actions(
    has_agent: bool,
    text: Seq<char>,
    range_start: usize,
    range_end: usize,
) -> Seq<CodeActionSpec> {
    let c = CodeActionSpec { action: ActionType::Complete, range_start, range_end };
    let e = CodeActionSpec { action: ActionType::Explain, range_start, range_end };
    let o = CodeActionSpec { action: ActionType::Optimize, range_start, range_end };
    if !has_agent {
        Seq::empty()
    } else if trim_seq(text).len() > 0 || range_start != range_end {
        seq![c, e, o]
    } else {
        seq![c]
    }
}

/// Without an agent no action is offered. With one, Complete is offered
/// first and always; Explain and then Optimize are offered as well exactly
/// when the editor holds non-blank text or a selection. Every offered
/// action applies to the given range.
pub proof fn lemma_offered_actions(
    has_agent: bool,
    text: Seq<char>,
    range_start: usize,
    range_end: usize,
)
    ensures
        !has_agent ==> offered_actions(has_agent, text, range_start, range_end).len() == 0,
        has_agent ==> offered_actions(has_agent, text, range_start, range_end).len() > 0
            && offered_actions(has_agent, text, range_start, range_end)[0].action
            == ActionType::Complete,
        has_agent && (trim_seq(text).len() > 0 || range_start != range_end) ==> offered_actions(
            has_agent,
            text,
            range_start,
            range_end,
        ).len() == 3 && offered_actions(has_agent, text, range_start, range_end)[1].action
            == ActionType::Explain && offered_actions(has_agent, text, range_start, range_end)[2].action
            == ActionType::Optimize,
        has_agent && trim_seq(text).len() == 0 && range_start == range_end ==> offered_actions(
            has_agent,
            text,
            range_start,
            range_end,
        ).len() == 1,
        forall|i: int|
            0 <= i < offered_actions(has_agent, text, range_start, range_end).len() ==> (
            #[trigger] offered_actions(has_agent, text, range_start, range_end)[i]).range_start
                == range_start && offered_actions(has_agent, text, range_start, range_end)[i].range_end
                == range_end,
{
}

pub fn available_code_actions(
    has_agent: bool,
    text: &str,
    range_start: usize,
    range_end: usize,
) -> (v: Vec<CodeActionSpec>)
    ensures
        v@ == offered_actions(has_agent, text@, range_start, range_end),
{
    let mut v: Vec<CodeActionSpec> = Vec::new();
    if !has_agent {
        assert(v@ =~= offered_actions(has_agent, text@, range_start, range_end));
        return v;
    }
    let has_content = !trim(text).as_str().is_empty();
    let has_selection = range_start != range_end;
    v.push(CodeActionSpec { action: ActionType::Complete, range_start, range_end });
    if has_content || has_selection {
        v.push(CodeActionSpec { action: ActionType::Explain, range_start, range_end });
        v.push(CodeActionSpec { action: ActionType::Optimize, range_start, range_end });
    }
    assert(v@ =~= offered_actions(has_agent, text@, range_start, range_end));
    v
}

// ---------------------------------------------------------------------------
// Performing an action
// ---------------------------------------------------------------------------

/// A request to perform an action, read back from the action's data.
#[derive(Debug, Clone, Copy, PartialEq, Eq, Structural)]
pub struct ActionRequest {
    pub action: ActionType,
    pub selection_start: usize,
    pub selection_end: usize,
}

/// The request encoded by an action's data fields: see
/// [`parse_action_request`].
pub open spec fn action_request_of(
    type_tag: Option<&str>,
    range_start: Option<u64>,
    range_end: Option<u64>,
) -> Option<ActionRequest> {
    match type_tag {
        None => None,
        Some(t) => match ActionType::from_tag(t@) {
            None => None,
            Some(a) => Some(
                ActionRequest {
                    action: a,
                    selection_start: (match range_start {
                        Some(x) => x,
                        None => 0,
                    }) as usize,
                    selection_end: (match range_end {
                        Some(x) => x,
                        None => 0,
                    }) as usize,
                },
            ),
        },
    }
}

/// The request encoded by an action's data fields: the `type` tag must name
/// an action; missing range fields count as 0.
pub fn parse_action_request(
    type_tag: Option<&str>,
    range_start: Option<u64>,
    range_end: Option<u64>,
) -> (r: Option<ActionRequest>)
    ensures
        r == action_request_of(type_tag, range_start, range_end),
{
    let action = match type_tag {
        Some(t) => match ActionType::from_str(t) {
            Some(a) => a,
            None => return None,
        },
        None => return None,
    };
    let s: u64 = match range_start {
        Some(x) => x,
        None => 0,
    };
    let e: u64 = match range_end {
        Some(x) => x,
        None => 0,
    };
    Some(ActionRequest { action, selection_start: s as usize, selection_end: e as usize })
}

/// The part of the text the prompt is about: the selection when there is
/// one, otherwise the whole text (as a start/end pair).
pub fn source_range(req: &ActionRequest, text_len: usize) -> (r: (usize, usize))
    ensures
        req.selection_start != req.selection_end ==> r == (req.selection_start, req.selection_end),
        req.selection_start == req.selection_end ==> r == (0usize, text_len),
{
    if req.selection_start != req.selection_end {
        (req.selection_start, req.selection_end)
    } else {
        (0, text_len)
    }
}

/// The SQL put in the prompt: for Complete, the whole text with a cursor
/// marker at the cursor; otherwise the source text.
pub fn sql_for_prompt(action: ActionType, source: &str, before_cursor: &str, after_cursor: &str) -> (s:
    String)
    ensures
        action == ActionType::Complete ==> s@ == before_cursor@ + CURSOR_MARKER@ + after_cursor@,
        action != ActionType::Complete ==> s@ == source@,
{
    if action == ActionType::Complete {
        let a = concat(before_cursor, CURSOR_MARKER);
        concat(a.as_str(), after_cursor)
    } else {
        owned(source)
    }
}

/// Each line of the text prefixed with `-- `, joined by newlines.
pub open spec fn commented_lines(ls: Seq<Seq<char>>) -> Seq<char>
    decreases ls.len(),
{
    if ls.len() == 0 {
        Seq::empty()
    } else if ls.len() == 1 {
        "-- "@ + ls[0]
    } else {
        commented_lines(ls.drop_last()) + "\n"@ + "-- "@ + ls.last()
    }
}

/// Every line of an explanation becomes a comment line of its own: the
/// comment for two runs of lines is the first run's comment, a newline, and
/// the second run's comment; one line `l` becomes `-- l`.
pub proof fn lemma_comment_lines_join(a: Seq<Seq<char>>, b: Seq<Seq<char>>)
    requires
        a.len() > 0,
        b.len() > 0,
    ensures
        commented_lines(a + b) == commented_lines(a) + "\n"@ + commented_lines(b),
        forall|l: Seq<char>| #[trigger] commented_lines(seq![l]) == "-- "@ + l,
    decreases b.len(),
{
    assert forall|l: Seq<char>| #[trigger] commented_lines(seq![l]) == "-- "@ + l by {
        assert(seq![l][0] == l);
    }
    if b.len() == 1 {
        assert((a + b).drop_last() =~= a);
        assert((a + b).last() == b[0]);
        assert(commented_lines(b) == "-- "@ + b[0]);
        assert(commented_lines(a + b) =~= commented_lines(a) + "\n"@ + commented_lines(b));
    } else {
        lemma_comment_lines_join(a, b.drop_last());
        assert((a + b).drop_last() =~= a + b.drop_last());
        assert((a + b).last() == b.last());
        assert(commented_lines(a + b) =~= commented_lines(a) + "\n"@ + commented_lines(b));
    }
}

/// An explanation turned into SQL comment lines.
pub fn explain_comment(text: &str) -> (c: String)
    ensures
        c@ == commented_lines(lines_of(text@)),
{
    let ls = lines(text);
    let ghost lv = strings_view(ls@);
    let mut out = String::new();
    let n = ls.len();
    let mut i: usize = 0;
    while i < n
        invariant
            n == ls@.len(),
            lv == strings_view(ls@),
            0 <= i <= n,
            out@ == commented_lines(lv.take(i as int)),
        decreases n - i,
    {
        assert(lv.take(i + 1).drop_last() =~= lv.take(i as int));
        if i > 0 {
            push_str(&mut out, "\n");
        }
        push_str(&mut out, "-- ");
        push_str(&mut out, ls[i].as_str());
        proof {
            if i == 0 {
                assert(out@ =~= commented_lines(lv.take(1)));
            } else {
                assert(out@ =~= commented_lines(lv.take(i + 1)));
            }
        }
        i = i + 1;
    }
    assert(lv.take(n as int) =~= lv);
    out
}

/// One text edit: replace `start..end` with `new_text`.
#[derive(Debug, Clone)]
pub struct TextEditPlan {
    pub start: usize,
    pub end: usize,
    pub new_text: String,
}

/// `e` applies `result` for the request: see [`plan_edit`].
pub open spec fn planned_edit(
    req: ActionRequest,
    result: Seq<char>,
    cursor: usize,
    current_len: usize,
    e: TextEditPlan,
) -> bool {
    match req.action {
        ActionType::Complete => e.start == cursor && e.end == cursor && e.new_text@ == result,
        ActionType::Explain => {
            &&& e.start == e.end
            &&& e.start == (if req.selection_start != req.selection_end {
                req.selection_start
            } else {
                0
            })
            &&& e.new_text@ == commented_lines(lines_of(result)) + "\n"@
        },
        ActionType::Optimize => {
            &&& (e.start, e.end) == (if req.selection_start != req.selection_end {
                (req.selection_start, req.selection_end)
            } else {
                (0usize, current_len)
            })
            &&& e.new_text@ == result
        },
    }
}

/// Optimizing a non-empty selection replaces exactly the selected range
/// with the result, leaving the text outside it untouched; without a
/// selection the whole text is replaced.
pub proof fn lemma_optimize_replaces_selection(
    req: ActionRequest,
    result: Seq<char>,
    cursor: usize,
    current_len: usize,
    e: TextEditPlan,
)
    requires
        req.action is Optimize,
        planned_edit(req, result, cursor, current_len, e),
    ensures
        e.new_text@ == result,
        req.selection_start != req.selection_end ==> e.start == req.selection_start && e.end
            == req.selection_end,
        req.selection_start == req.selection_end ==> e.start == 0 && e.end == current_len,
{
}

/// Completing and explaining only insert: their edits remove no text.
/// Completion inserts the result at the cursor; an explanation goes at the
/// start of a non-empty selection, else at the top.
pub proof fn lemma_complete_and_explain_only_insert(
    req: ActionRequest,
    result: Seq<char>,
    cursor: usize,
    current_len: usize,
    e: TextEditPlan,
)
    requires
        !(req.action is Optimize),
        planned_edit(req, result, cursor, current_len, e),
    ensures
        e.start == e.end,
        req.action is Complete ==> e.start == cursor && e.new_text@ == result,
        req.action is Explain && req.selection_start != req.selection_end ==> e.start
            == req.selection_start,
        req.action is Explain && req.selection_start == req.selection_end ==> e.start == 0,
{
}

/// The edit that applies an action's result. Complete inserts at the
/// cursor; Explain inserts the commented explanation (and a newline) at the
/// selection start, or at the top without a selection; Optimize replaces
/// the selection, or the whole text without one.
pub fn plan_edit(req: &ActionRequest, result: &str, cursor: usize, current_len: usize) -> (e:
    TextEditPlan)
    ensures
        planned_edit(*req, result@, cursor, current_len, e),
{
    let has_selection = req.selection_start != req.selection_end;
    match req.action {
        ActionType::Complete => TextEditPlan { start: cursor, end: cursor, new_text: owned(result) },
        ActionType::Explain => {
            let comment = explain_comment(result);
            let at = if has_selection {
                req.selection_start
            } else {
                0
            };
            TextEditPlan { start: at, end: at, new_text: concat(comment.as_str(), "\n") }
        },
        ActionType::Optimize => {
            let (start, end) = if has_selection {
                (req.selection_start, req.selection_end)
            } else {
                (0, current_len)
            };
            TextEditPlan { start, end, new_text: owned(result) }
        },
    }
}

// ---------------------------------------------------------------------------
// Provider
// ---------------------------------------------------------------------------

/// The agent used for code actions, running `model`, if an API key is
/// available (`env_api_key` is the value of `ANTHROPIC_API_KEY`, if set).
pub fn build_code_action_agent(env_api_key: Option<String>, model: String) -> (r: Option<Agent>)
    ensures
        r is Some <==> env_api_key is Some,
        r matches Some(a) ==> a@.system_prompt == CODE_ACTION_SYSTEM_PROMPT@ && a@.model
            == model@ && a@.max_tokens == 2048 && a@.tools.len() == 0
            && a@.conversation.len() == 0,
{
    let b = Agent::builder().system_prompt(owned(CODE_ACTION_SYSTEM_PROMPT)).model(model).max_tokens(
        2048,
    );
    let tools = Vec::new();
    match b.build(tools, env_api_key) {
        Ok(agent) => Some(agent),
        Err(_) => None,
    }
}

/// SQL code action provider with AI-powered actions.
#[derive(Debug, Clone)]
pub struct SqlCodeActionProvider {
    agent: Option<Agent>,
    schema: Option<String>,
}

impl SqlCodeActionProvider {
    /// The agent, when one could be built.
    pub closed spec fn spec_agent(&self) -> Option<Agent> {
        self.agent
    }

    /// The schema text last set.
    pub closed spec fn spec_schema(&self) -> Option<Seq<char>> {
        self.schema.deep_view()
    }

    /// A provider with the code-action agent running `model` (when
    /// `env_api_key` holds a key) and no schema yet.
    pub fn new(env_api_key: Option<String>, model: String) -> (p: Self)
        ensures
            p.spec_agent() is Some <==> env_api_key is Some,
            p.spec_schema() is None,
    {
        SqlCodeActionProvider { agent: build_code_action_agent(env_api_key, model), schema: None }
    }

    pub fn set_schema(&mut self, schema: String)
        ensures
            final(self).spec_schema() == Some(schema@),
            final(self).spec_agent() == old(self).spec_agent(),
    {
        self.schema = Some(schema);
    }

    pub fn get_schema(&self) -> (s: Option<String>)
        ensures
            s.deep_view() == self.spec_schema(),
    {
        match &self.schema {
            Some(s) => Some(s.clone()),
            None => None,
        }
    }

    pub fn agent(&self) -> (a: Option<&Agent>)
        ensures
            match (a, self.spec_agent()) {
                (Some(x), Some(y)) => *x == y,
                (None, None) => true,
                _ => false,
            },
    {
        match &self.agent {
            Some(a) => Some(a),
            None => None,
        }
    }
}

/// Whether the editor shows a code action as running.
#[derive(Debug, Clone, Copy, PartialEq, Eq, Structural)]
pub struct EditorCodeActions {
    pub loading: bool,
}

impl EditorCodeActions {
    /// No action running.
    pub fn new() -> (s: Self)
        ensures
            !s.loading,
    {
        EditorCodeActions { loading: false }
    }
}

/// A code action about to run: the request read from its data, the agent
/// to ask and the schema to include.
#[derive(Debug, Clone)]
pub struct CodeActionJob {
    pub request: ActionRequest,
    pub agent: Agent,
    pub schema: Option<String>,
}

impl SqlCodeActionProvider {
    /// The provider's identifier.
    pub fn id(&self) -> (s: &'static str)
        ensures
            s@ == "SqlAIAssist"@,
    {
        "SqlAIAssist"
    }

    /// The actions offered for the editor's text and selection.
    pub fn code_actions(&self, text: &str, range_start: usize, range_end: usize) -> (v: Vec<
        CodeActionSpec,
    >)
        ensures
            v@ == offered_actions(self.spec_agent() is Some, text@, range_start, range_end),
    {
        available_code_actions(self.agent.is_some(), text, range_start, range_end)
    }

    /// Starts performing an action from its data fields: nothing happens
    /// (`None`, `editor` unchanged) when the `type` tag names no action;
    /// otherwise the editor shows the action as running and the job is
    /// handed out. An action that names a type needs the agent, which
    /// exists whenever actions were offered.
    pub fn perform_code_action(
        &self,
        editor: &mut EditorCodeActions,
        type_tag: Option<&str>,
        range_start: Option<u64>,
        range_end: Option<u64>,
    ) -> (j: Option<CodeActionJob>)
        requires
            action_request_of(type_tag, range_start, range_end) is Some ==> self.spec_agent() is Some,
        ensures
            match action_request_of(type_tag, range_start, range_end) {
                None => j is None && *final(editor) == *old(editor),
                Some(r) => j matches Some(job) && job.request == r && (self.spec_agent() matches Some(
                    a,
                ) && job.agent@ == a@) && job.schema.deep_view() == self.spec_schema()
                    && final(editor).loading,
            },
    {
        let request = match parse_action_request(type_tag, range_start, range_end) {
            Some(r) => r,
            None => {
                return None;
            },
        };
        let agent = match &self.agent {
            Some(a) => a.duplicate(),
            None => {
                return None;
            },
        };
        editor.loading = true;
        Some(CodeActionJob { request, agent, schema: self.get_schema() })
    }
}

impl CodeActionJob {
    /// The prompt for this job: for Complete, the whole text with the
    /// cursor marked (`before` and `after` the cursor); otherwise the
    /// selection, or the whole text without one (`source`).
    pub fn prompt(&self, source: &str, before_cursor: &str, after_cursor: &str) -> (p: String)
        ensures
            p@ == prompt_text(
                self.request.action,
                if self.request.action == ActionType::Complete {
                    before_cursor@ + CURSOR_MARKER@ + after_cursor@
                } else {
                    source@
                },
                self.schema.deep_view(),
            ),
    {
        let sql = sql_for_prompt(self.request.action, source, before_cursor, after_cursor);
        build_prompt(self.request.action, sql.as_str(), &self.schema)
    }

    /// The edit applying the model's answer, if it gave text to apply.
    /// Handing out the edit ends the action in the editor; when there is
    /// nothing to apply, the editor is left as it is.
    pub fn edit_for(
        &self,
        editor: &mut EditorCodeActions,
        reply: &Result<AgentResponse, AgentError>,
        cursor: usize,
        current_len: usize,
    ) -> (e: Option<TextEditPlan>)
        ensures
            match applied_text(*reply) {
                None => e is None && *final(editor) == *old(editor),
                Some(t) => e matches Some(plan) && planned_edit(
                    self.request,
                    t,
                    cursor,
                    current_len,
                    plan,
                ) && !final(editor).loading,
            },
    {
        match action_result_text(reply) {
            Some(t) => {
                let plan = plan_edit(&self.request, t.as_str(), cursor, current_len);
                editor.loading = false;
                Some(plan)
            },
            None => None,
        }
    }
}

} // verus!
