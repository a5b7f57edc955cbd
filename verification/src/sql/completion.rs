//! SQL completions: keyword completions filtered by the typed trigger,
//! slash commands, and agent-powered inline completions.
use vstd::prelude::*;
use crate::agent::client::{Agent, AgentError};
use crate::agent::types::{AgentResponse, InlineCompletionRequest};
use crate::text::{
    chars_of, has_prefix, is_ascii_alpha_spec, is_ascii_alnum_spec, is_ascii_alphabetic,
    is_ascii_alphanumeric, owned, push_str, remove_all, remove_from, starts_with, trim, trim_seq,
};

verus! {

/// System prompt for inline completions.
pub const COMPLETION_SYSTEM_PROMPT: &'static str = "You are a SQL completion assistant. Your task is to complete SQL code based on the given prefix and db schema.

RULES:
1. Return the completion text - no explanations, no markdown, no quotes
2. Complete the current statement naturally, prepent a space or newline if it makes sense (e.g. newline if prefix is a comment).
3. If the prefix ends with \"--\", suggest a brief, helpful comment
4. If completing a keyword, match the case style of the prefix
5. Keep suggestions concise, similar to any context, and performant.
6. If you cannot provide a meaningful completion, return an empty string
";

/// At most this many keyword completions are offered.
pub const MAX_COMPLETIONS: usize = 10;

/// Inline completions consider this many preceding lines as context.
pub const CONTEXT_LINES: usize = 10;

/// Debounce for inline completions, in milliseconds.
pub const INLINE_COMPLETION_DEBOUNCE_MS: u64 = 600;

/// The agent used for inline completions, running `model`, if an API key
/// is available (`env_api_key` is the value of `ANTHROPIC_API_KEY`, if
/// set).
pub fn build_completion_agent(env_api_key: Option<String>, model: String) -> (r: Option<Agent>)
    ensures
        r is Some <==> env_api_key is Some,
        r matches Some(a) ==> a@.system_prompt == COMPLETION_SYSTEM_PROMPT@ && a@.model
            == model@ && a@.max_tokens == 1024 && a@.tools.len() == 0
            && a@.conversation.len() == 0,
{
    let b = Agent::builder().system_prompt(owned(COMPLETION_SYSTEM_PROMPT)).model(model).max_tokens(
        1024,
    );
    let tools = Vec::new();
    match b.build(tools, env_api_key) {
        Ok(agent) => Some(agent),
        Err(_) => None,
    }
}

/// The prompt for an inline completion.
pub open spec fn completion_prompt(
    prefix: Seq<char>,
    suffix: Seq<char>,
    context: Option<Seq<char>>,
    schema: Option<Seq<char>>,
) -> Seq<char> {
    let p1 = "Complete this SQL:\n"@ + prefix;
    let p2 = if suffix.len() > 0 {
        p1 + "[cursor]"@ + suffix
    } else {
        p1
    };
    let p3 = match context {
        Some(c) => p2 + "\n\nPrevious lines:\n"@ + c,
        None => p2,
    };
    match schema {
        Some(s) => p3 + "\n\nSchema: "@ + s + "\n"@,
        None => p3,
    }
}

pub fn build_completion_prompt(req: &InlineCompletionRequest, schema: &Option<String>) -> (p:
    String)
    ensures
        p@ == completion_prompt(
            req.prefix@,
            req.suffix@,
            req.context.deep_view(),
            schema.deep_view(),
        ),
{
    let mut prompt = owned("Complete this SQL:\n");
    push_str(&mut prompt, req.prefix.as_str());
    if !req.suffix.as_str().is_empty() {
        push_str(&mut prompt, "[cursor]");
        push_str(&mut prompt, req.suffix.as_str());
    }
    match &req.context {
        Some(c) => {
            push_str(&mut prompt, "\n\nPrevious lines:\n");
            push_str(&mut prompt, c.as_str());
        },
        None => {},
    }
    match schema {
        Some(s) => {
            push_str(&mut prompt, "\n\nSchema: ");
            push_str(&mut prompt, s.as_str());
            push_str(&mut prompt, "\n");
        },
        None => {},
    }
    prompt
}

/// The suggestion in the model's answer: a text reply, trimmed, when
/// something is left.
pub open spec fn suggestion_of(r: Result<AgentResponse, AgentError>) -> Option<Seq<char>> {
    match r {
        Ok(AgentResponse::TextResponse { text, .. }) => if trim_seq(text@).len() == 0 {
            None
        } else {
            Some(trim_seq(text@))
        },
        _ => None,
    }
}

pub fn completion_from_response(r: &Result<AgentResponse, AgentError>) -> (s: Option<String>)
    ensures
        s.deep_view() == suggestion_of(*r),
{
    match r {
        Ok(AgentResponse::TextResponse { text, .. }) => {
            let t = trim(text.as_str());
            if t.as_str().is_empty() {
                None
            } else {
                Some(t)
            }
        },
        _ => None,
    }
}

/// Whether inline completions run: they must be switched on and an agent
/// must exist.
pub fn inline_completion_enabled(enabled: bool, has_agent: bool) -> (b: bool)
    ensures
        b == (enabled && has_agent),
{
    enabled && has_agent
}

/// The first row of the context given with an inline completion: up to ten
/// rows above the cursor's row, or none on the first row.
pub fn context_start_row(row: usize) -> (r: Option<usize>)
    ensures
        row == 0 ==> r is None,
        row > 0 ==> r == Some(if row >= CONTEXT_LINES {
            (row - CONTEXT_LINES) as usize
        } else {
            0usize
        }),
{
    if row > 0 {
        Some(row.saturating_sub(CONTEXT_LINES))
    } else {
        None
    }
}

// ---------------------------------------------------------------------------
// Keyword completions
// ---------------------------------------------------------------------------

/// Whether typing `new_text` should open completions: it must start with an
/// ASCII letter, an underscore or a slash.
pub fn is_completion_trigger(new_text: &str) -> (b: bool)
    ensures
        b == (new_text@.len() > 0 && (is_ascii_alpha_spec(new_text@[0]) || new_text@[0] == '_'
            || new_text@[0] == '/')),
{
    let v = chars_of(new_text);
    if v.len() == 0 {
        return false;
    }
    let ch = v[0];
    is_ascii_alphabetic(ch) || ch == '_' || ch == '/'
}

/// How a completion request is answered.
#[derive(Debug, Clone, Copy, PartialEq, Eq, Structural)]
pub enum TriggerKind {
    /// No trigger text: nothing is offered.
    Empty,
    /// A slash command.
    Slash,
    /// A word: keyword completions, unless typed in the middle of a word.
    Word,
}

pub fn trigger_kind(trigger: &str) -> (k: TriggerKind)
    ensures
        trigger@.len() == 0 ==> k == TriggerKind::Empty,
        trigger@.len() > 0 && trigger@[0] == '/' ==> k == TriggerKind::Slash,
        trigger@.len() > 0 && trigger@[0] != '/' ==> k == TriggerKind::Word,
{
    let v = chars_of(trigger);
    if v.len() == 0 {
        TriggerKind::Empty
    } else if v[0] == '/' {
        TriggerKind::Slash
    } else {
        TriggerKind::Word
    }
}

/// Whether the character before the trigger is part of a word (then the
/// trigger is mid-word and no completions are offered).
pub fn is_mid_word(prev: char) -> (b: bool)
    ensures
        b == (is_ascii_alnum_spec(prev) || prev == '_'),
{
    is_ascii_alphanumeric(prev) || prev == '_'
}

/// Offset of the character before the trigger, when there is one: the
/// cursor is just after the trigger text.
pub fn prev_char_offset(offset: usize, trigger_len: usize) -> (r: Option<usize>)
    ensures
        offset > trigger_len ==> r == Some((offset - trigger_len - 1) as usize),
        offset <= trigger_len ==> r is None,
{
    if offset > trigger_len {
        Some(offset - trigger_len - 1)
    } else {
        None
    }
}

/// A keyword completion: the index of the item offered, and the text it
/// inserts (its label with the trigger text removed).
#[derive(Debug, Clone)]
pub struct CompletionMatch {
    pub index: usize,
    pub insert_text: String,
}

/// Indices of the first (at most ten) labels that start with the trigger.
pub open spec fn matching_indices(labels: Seq<Seq<char>>, trigger: Seq<char>, upto: int) -> Seq<
    int,
>
    decreases upto,
{
    if upto <= 0 {
        Seq::empty()
    } else {
        let rest = matching_indices(labels, trigger, upto - 1);
        if has_prefix(labels[upto - 1], trigger) && rest.len() < MAX_COMPLETIONS {
            rest.push(upto - 1)
        } else {
            rest
        }
    }
}

proof fn lemma_matching_indices_bounds(labels: Seq<Seq<char>>, trigger: Seq<char>, upto: int)
    requires
        0 <= upto <= labels.len(),
    ensures
        matching_indices(labels, trigger, upto).len() <= MAX_COMPLETIONS,
        forall|k: int|
            0 <= k < matching_indices(labels, trigger, upto).len() ==> 0 <= #[trigger] matching_indices(
                labels,
                trigger,
                upto,
            )[k] < upto,
    decreases upto,
{
    if upto > 0 {
        lemma_matching_indices_bounds(labels, trigger, upto - 1);
    }
}

/// The matches among the first `upto` labels: in list order, each a label
/// that starts with the trigger, and none passed over unless ten earlier
/// labels were already offered.
proof fn lemma_matching_indices_first(labels: Seq<Seq<char>>, trigger: Seq<char>, upto: int)
    requires
        0 <= upto <= labels.len(),
    ensures
        forall|k: int|
            0 <= k < matching_indices(labels, trigger, upto).len() ==> {
                let i = #[trigger] matching_indices(labels, trigger, upto)[k];
                0 <= i < upto && has_prefix(labels[i], trigger)
            },
        forall|k: int, l: int|
            0 <= k < l < matching_indices(labels, trigger, upto).len() ==> #[trigger] matching_indices(
                labels,
                trigger,
                upto,
            )[k] < #[trigger] matching_indices(labels, trigger, upto)[l],
        forall|i: int|
            0 <= i < upto && #[trigger] has_prefix(labels[i], trigger) ==> matching_indices(
                labels,
                trigger,
                upto,
            ).contains(i) || matching_indices(labels, trigger, upto).len() == MAX_COMPLETIONS,
    decreases upto,
{
    if upto > 0 {
        lemma_matching_indices_first(labels, trigger, upto - 1);
        lemma_matching_indices_bounds(labels, trigger, upto - 1);
        let rest = matching_indices(labels, trigger, upto - 1);
        let m = matching_indices(labels, trigger, upto);
        if has_prefix(labels[upto - 1], trigger) && rest.len() < MAX_COMPLETIONS {
            assert(m == rest.push(upto - 1));
            assert(m[m.len() - 1] == upto - 1);
            assert forall|i: int|
                0 <= i < upto && #[trigger] has_prefix(labels[i], trigger) implies m.contains(i)
                || m.len() == MAX_COMPLETIONS by {
                if i < upto - 1 && rest.contains(i) {
                    let k = choose|k: int| 0 <= k < rest.len() && rest[k] == i;
                    assert(m[k] == i);
                }
            }
        } else {
            assert(m == rest);
        }
    }
}

/// The completions offered are the labels that start with the trigger, in
/// list order, wherever they stand in the list: a label that starts with
/// the trigger is left out only when ten labels before it were offered.
pub proof fn lemma_completions_are_the_first_matches(labels: Seq<Seq<char>>, trigger: Seq<char>)
    ensures
        matching_indices(labels, trigger, labels.len() as int).len() <= MAX_COMPLETIONS,
        forall|k: int|
            0 <= k < matching_indices(labels, trigger, labels.len() as int).len() ==> {
                let i = #[trigger] matching_indices(labels, trigger, labels.len() as int)[k];
                0 <= i < labels.len() && has_prefix(labels[i], trigger)
            },
        forall|k: int, l: int|
            0 <= k < l < matching_indices(labels, trigger, labels.len() as int).len()
                ==> #[trigger] matching_indices(labels, trigger, labels.len() as int)[k]
                < #[trigger] matching_indices(labels, trigger, labels.len() as int)[l],
        forall|i: int|
            0 <= i < labels.len() && #[trigger] has_prefix(labels[i], trigger) ==> matching_indices(
                labels,
                trigger,
                labels.len() as int,
            ).contains(i) || matching_indices(labels, trigger, labels.len() as int).len()
                == MAX_COMPLETIONS,
{
    lemma_matching_indices_bounds(labels, trigger, labels.len() as int);
    lemma_matching_indices_first(labels, trigger, labels.len() as int);
}

/// The keyword completions for a trigger: the first ten items whose label
/// starts with the trigger, each inserting its label without the trigger.
pub fn filter_completions(labels: &Vec<String>, trigger: &str) -> (r: Vec<CompletionMatch>)
    ensures
        r@.len() == matching_indices(crate::text::strings_view(labels@), trigger@, labels@.len() as int).len(),
        forall|k: int|
            0 <= k < r@.len() ==> {
                let i = matching_indices(
                    crate::text::strings_view(labels@),
                    trigger@,
                    labels@.len() as int,
                )[k];
                &&& (#[trigger] r@[k]).index == i
                &&& r@[k].insert_text@ == remove_from(labels@[i]@, trigger@, 0)
            },
{
    let ghost lv = crate::text::strings_view(labels@);
    let mut out: Vec<CompletionMatch> = Vec::new();
    let n = labels.len();
    let mut i: usize = 0;
    while i < n
        invariant
            n == labels@.len(),
            lv == crate::text::strings_view(labels@),
            0 <= i <= n,
            out@.len() == matching_indices(lv, trigger@, i as int).len(),
            forall|k: int|
                0 <= k < out@.len() ==> {
                    let j = matching_indices(lv, trigger@, i as int)[k];
                    &&& (#[trigger] out@[k]).index == j
                    &&& out@[k].insert_text@ == remove_from(labels@[j]@, trigger@, 0)
                },
        decreases n - i,
    {
        proof {
            lemma_matching_indices_bounds(lv, trigger@, i as int);
        }
        if out.len() < MAX_COMPLETIONS && starts_with(labels[i].as_str(), trigger) {
            let t = remove_all(labels[i].as_str(), trigger);
            out.push(CompletionMatch { index: i, insert_text: t });
        }
        i = i + 1;
    }
    out
}

/// A slash command offered in the editor.
#[derive(Debug, Clone)]
pub struct SlashCommand {
    pub label: &'static str,
    pub text: String,
    pub doc: &'static str,
}

/// `v` is the list of slash commands, with `today` as the current date.
pub open spec fn slash_list(v: Seq<SlashCommand>, today: Seq<char>) -> bool {
    &&& v.len() == 7
    &&& v[0].label@ == "/date"@ && v[0].text@ == today && v[0].doc@ == "Insert current date"@
    &&& v[1].label@ == "/thanks"@ && v[1].text@ == "Thank you!"@ && v[1].doc@
        == "Insert Thank you!"@
    &&& v[2].label@ == "/+1"@ && v[2].text@ == "\u{1F44D}"@ && v[2].doc@ == "Insert \u{1F44D}"@
    &&& v[3].label@ == "/-1"@ && v[3].text@ == "\u{1F44E}"@ && v[3].doc@ == "Insert \u{1F44E}"@
    &&& v[4].label@ == "/smile"@ && v[4].text@ == "\u{1F60A}"@ && v[4].doc@
        == "Insert \u{1F60A}"@
    &&& v[5].label@ == "/sad"@ && v[5].text@ == "\u{1F622}"@ && v[5].doc@ == "Insert \u{1F622}"@
    &&& v[6].label@ == "/launch"@ && v[6].text@ == "\u{1F680}"@ && v[6].doc@
        == "Insert \u{1F680}"@
}

/// The slash commands; `today` is the current date as text.
pub fn slash_commands(today: String) -> (v: Vec<SlashCommand>)
    ensures
        slash_list(v@, today@),
{
    let mut v = Vec::new();
    v.push(SlashCommand { label: "/date", text: today, doc: "Insert current date" });
    v.push(SlashCommand { label: "/thanks", text: owned("Thank you!"), doc: "Insert Thank you!" });
    v.push(SlashCommand { label: "/+1", text: owned("\u{1F44D}"), doc: "Insert \u{1F44D}" });
    v.push(SlashCommand { label: "/-1", text: owned("\u{1F44E}"), doc: "Insert \u{1F44E}" });
    v.push(SlashCommand { label: "/smile", text: owned("\u{1F60A}"), doc: "Insert \u{1F60A}" });
    v.push(SlashCommand { label: "/sad", text: owned("\u{1F622}"), doc: "Insert \u{1F622}" });
    v.push(SlashCommand { label: "/launch", text: owned("\u{1F680}"), doc: "Insert \u{1F680}" });
    v
}

/// Start of the text a slash command replaces: the trigger just typed.
pub fn slash_replace_start(offset: usize, trigger_len: usize) -> (s: usize)
    ensures
        s == (if offset >= trigger_len {
            (offset - trigger_len) as usize
        } else {
            0usize
        }),
{
    offset.saturating_sub(trigger_len)
}

/// The current local date as `YYYY-MM-DD` (`chrono::Local::now()
/// .date_naive().to_string()`). It depends on the clock and the time zone;
/// nothing is stated of it.
#[verifier::external_body]
fn today_text() -> (s: String) {
    chrono::Local::now().date_naive().to_string()
}

/// How a completion request is answered.
#[derive(Debug, Clone)]
pub enum CompletionAnswer {
    /// Nothing is offered.
    Nothing,
    /// The slash commands, replacing the text from `replace_start` to the
    /// cursor.
    Slash { commands: Vec<SlashCommand>, replace_start: usize },
    /// Keyword completions.
    Keywords(Vec<CompletionMatch>),
}

/// The SQL completion provider: keyword completions, schema and the agent
/// for inline completions.
pub struct SqlCompletionProvider {
    /// Labels of the keyword completions, in the order they are offered.
    pub labels: Vec<String>,
    pub agent: Option<Agent>,
    pub schema: Option<String>,
    /// The id the next inline completion request gets.
    pub request_counter: u64,
    pub inline_completions_enabled: bool,
}

impl SqlCompletionProvider {
    /// A provider offering `labels`, with inline completions off; it has an
    /// agent running `model` when `env_api_key` (`ANTHROPIC_API_KEY`) is
    /// set.
    pub fn new(labels: Vec<String>, env_api_key: Option<String>, model: String) -> (p: Self)
        ensures
            p.labels@ == labels@,
            p.agent is Some <==> env_api_key is Some,
            p.schema is None,
            p.request_counter == 0,
            !p.inline_completions_enabled,
    {
        SqlCompletionProvider {
            labels,
            agent: build_completion_agent(env_api_key, model),
            schema: None,
            request_counter: 0,
            inline_completions_enabled: false,
        }
    }

    pub fn toggle_inline_completions(&mut self, enabled: bool)
        ensures
            final(self).inline_completions_enabled == enabled,
            final(self).labels == old(self).labels,
            final(self).schema == old(self).schema,
            final(self).request_counter == old(self).request_counter,
    {
        self.inline_completions_enabled = enabled;
    }

    pub fn get_inline_completions_enabled(&self) -> (b: bool)
        ensures
            b == self.inline_completions_enabled,
    {
        self.inline_completions_enabled
    }

    /// Adds completions derived from the schema (tables, columns), after
    /// the existing ones.
    pub fn add_schema_completions(&mut self, labels: Vec<String>)
        ensures
            final(self).labels@ == old(self).labels@ + labels@,
            final(self).schema == old(self).schema,
            final(self).inline_completions_enabled == old(self).inline_completions_enabled,
            final(self).request_counter == old(self).request_counter,
    {
        let mut labels = labels;
        self.labels.append(&mut labels);
    }

    /// Sets the schema given to inline completions.
    pub fn add_schema(&mut self, schema: String)
        ensures
            final(self).schema == Some(schema),
            final(self).labels == old(self).labels,
            final(self).inline_completions_enabled == old(self).inline_completions_enabled,
            final(self).request_counter == old(self).request_counter,
    {
        self.schema = Some(schema);
    }

    pub fn get_schema(&self) -> (s: Option<String>)
        ensures
            s == self.schema,
    {
        match &self.schema {
            Some(t) => Some(t.clone()),
            None => None,
        }
    }

    /// A new request id; ids count up from zero (wrapping around).
    pub fn next_request_id(&mut self) -> (id: u64)
        ensures
            id == old(self).request_counter,
            final(self).request_counter == old(self).request_counter.wrapping_add(1),
            final(self).labels == old(self).labels,
            final(self).schema == old(self).schema,
            final(self).inline_completions_enabled == old(self).inline_completions_enabled,
    {
        let id = self.request_counter;
        self.request_counter = self.request_counter.wrapping_add(1);
        id
    }

    /// Answers a completion request. `offset` is the cursor (just after
    /// the trigger text); `prev_char` is the character before the trigger,
    /// when the cursor is further in than the trigger's length.
    pub fn completions(&self, offset: usize, trigger: &str, prev_char: Option<char>) -> (a:
        CompletionAnswer)
        ensures
            trigger@.len() == 0 ==> a is Nothing,
            trigger@.len() > 0 && trigger@[0] == '/' ==> (a matches CompletionAnswer::Slash {
                commands,
                replace_start,
            } && slash_list(commands@, commands@[0].text@) && replace_start == (
            if offset >= trigger.len() {
                (offset - trigger.len()) as usize
            } else {
                0usize
            })),
            trigger@.len() > 0 && trigger@[0] != '/' && (prev_char matches Some(c) && (
            is_ascii_alnum_spec(c) || c == '_')) ==> a is Nothing,
            trigger@.len() > 0 && trigger@[0] != '/' && !(prev_char matches Some(c) && (
            is_ascii_alnum_spec(c) || c == '_')) ==> (a matches CompletionAnswer::Keywords(m) && {
                let idx = matching_indices(
                    crate::text::strings_view(self.labels@),
                    trigger@,
                    self.labels@.len() as int,
                );
                &&& m@.len() == idx.len()
                &&& forall|k: int|
                    0 <= k < m@.len() ==> {
                        &&& (#[trigger] m@[k]).index == idx[k]
                        &&& m@[k].insert_text@ == remove_from(
                            self.labels@[idx[k]]@,
                            trigger@,
                            0,
                        )
                    }
            }),
    {
        match trigger_kind(trigger) {
            TriggerKind::Empty => CompletionAnswer::Nothing,
            TriggerKind::Slash => {
                let replace_start = slash_replace_start(offset, trigger.len());
                let today = today_text();
                let commands = slash_commands(today);
                CompletionAnswer::Slash { commands, replace_start }
            },
            TriggerKind::Word => {
                if let Some(c) = prev_char {
                    if is_mid_word(c) {
                        return CompletionAnswer::Nothing;
                    }
                }
                CompletionAnswer::Keywords(filter_completions(&self.labels, trigger))
            },
        }
    }

    /// Debounce for inline completions, in milliseconds.
    pub fn inline_completion_debounce(&self) -> (ms: u64)
        ensures
            ms == INLINE_COMPLETION_DEBOUNCE_MS,
    {
        INLINE_COMPLETION_DEBOUNCE_MS
    }

    /// Starts an inline completion: `None` when they are off or no agent
    /// exists; otherwise the request's id.
    pub fn begin_inline_completion(&mut self) -> (r: Option<u64>)
        ensures
            !(old(self).inline_completions_enabled && old(self).agent is Some) ==> r is None
                && final(self).request_counter == old(self).request_counter,
            old(self).inline_completions_enabled && old(self).agent is Some ==> r == Some(
                old(self).request_counter,
            ) && final(self).request_counter == old(self).request_counter.wrapping_add(1),
            final(self).labels == old(self).labels,
            final(self).schema == old(self).schema,
            final(self).inline_completions_enabled == old(self).inline_completions_enabled,
    {
        if !inline_completion_enabled(self.inline_completions_enabled, self.agent.is_some()) {
            return None;
        }
        Some(self.next_request_id())
    }
}

} // verus!
