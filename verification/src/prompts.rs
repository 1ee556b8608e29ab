//! Template engine for rendering system prompts with dynamic variables,
//! backed by minijinja. The engine's own dispatch is verified; the calls into
//! minijinja stand behind trusted wrappers.

use std::collections::HashMap;
use vstd::prelude::*;
use vstd::string::*;

use crate::text::{dec_str, opt_str_text};

verus! {

#[verifier::external_type_specification]
#[verifier::external_body]
pub struct ExEnvironment<'a>(minijinja::Environment<'a>);

#[verifier::external_type_specification]
#[verifier::external_body]
pub struct ExValue(minijinja::Value);

#[verifier::external_type_specification]
#[verifier::external_body]
pub struct ExMjError(minijinja::Error);

/// Relies on minijinja::Environment::new: a fresh environment holding no
/// templates yet.
#[verifier::external_body]
fn env_new() -> minijinja::Environment<'static> {
    minijinja::Environment::new()
}

/// Relies on minijinja::Environment::add_template: registers `source` under
/// `name`; fails only when the template source has a syntax error.
#[verifier::external_body]
fn env_add_template(
    env: &mut minijinja::Environment<'static>,
    name: &'static str,
    source: &'static str,
) -> Result<(), minijinja::Error> {
    env.add_template(name, source)
}

/// Relies on minijinja::Environment::get_template and
/// minijinja::Template::render: looks `name` up and renders it with `ctx`;
/// fails when no template of that name is registered or rendering fails.
#[verifier::external_body]
fn env_render(
    env: &minijinja::Environment<'static>,
    name: &str,
    ctx: minijinja::Value,
) -> Result<String, minijinja::Error> {
    match env.get_template(name) {
        Ok(template) => template.render(ctx),
        Err(e) => Err(e),
    }
}

/// Relies on minijinja::Error's Display rendering: a human-readable
/// description of the failure.
#[verifier::external_body]
fn mj_error_text(e: &minijinja::Error) -> String {
    e.to_string()
}

/// Relies on minijinja::Value::from for &str.
#[verifier::external_body]
fn value_of_str(s: &str) -> minijinja::Value {
    minijinja::Value::from(s)
}

/// Relies on minijinja::Value::from for (): the template value `none`.
#[verifier::external_body]
fn value_none() -> minijinja::Value {
    minijinja::Value::from(())
}

/// Relies on the constant minijinja::Value::UNDEFINED.
#[verifier::external_body]
fn value_undefined() -> minijinja::Value {
    minijinja::Value::UNDEFINED
}

/// Relies on minijinja::Value's FromIterator over key-value pairs: a map
/// value holding exactly the given pairs.
#[verifier::external_body]
fn value_map(pairs: Vec<(&'static str, minijinja::Value)>) -> minijinja::Value {
    pairs.into_iter().collect()
}

/// Relies on minijinja::Value::from_object for a map of named values.
#[verifier::external_body]
fn value_of_hash_map(vars: HashMap<String, minijinja::Value>) -> minijinja::Value {
    minijinja::Value::from_object(vars)
}

/// The compaction marker text for a removal count and a recap: the fixed
/// template with its two variables substituted.
pub open spec fn compact_marker_text(remove_count: nat, recap: Seq<char>) -> Seq<char> {
    "[System: Earlier work has been summarized to free up context. "@ + dec_str(remove_count)
        + " messages compacted.]\n\n## Work completed so far:\n\n"@ + recap
}

/// The truncation marker text for a removal count.
pub open spec fn truncation_marker_text(remove_count: nat) -> Seq<char> {
    "[System: "@ + dec_str(remove_count)
        + " older messages were truncated due to context limits. Some conversation history has been lost.]"@
}

/// The fixed overflow-recovery notice.
pub open spec fn overflow_notice_text() -> Seq<char> {
    "[System: Previous attempt exceeded context limit. Older history has been compacted.]"@
}

/// The fixed retrigger notice.
pub open spec fn retrigger_text() -> Seq<char> {
    "[System: a background process has completed. Check your history and status block for the result, then respond to the user.]"@
}

/// The fixed memory-persistence prompt.
pub open spec fn memory_persistence_text() -> Seq<char> {
    "Review the recent conversation and persist any important information as memories. Start by recalling existing memories related to the topics discussed, then save new or updated memories with appropriate associations."@
}

/// The worker-capabilities fragment for the two feature switches: the fixed
/// tool list, with the browser line exactly when `browser_enabled` and the
/// web-search line exactly when `web_search_enabled`.
pub open spec fn capabilities_text(browser_enabled: bool, web_search_enabled: bool) -> Seq<char> {
    "\n## Worker Capabilities\n\nWhen you spawn a worker, it has access to the following tools:\n\n- **shell** — run shell commands\n- **file** — read, write, search, and list files\n- **exec** — run subprocesses with environment control\n- **set_status** — update worker status visible in your status block"@
        + (if browser_enabled {
        "\n- **browser** — browse web pages, take screenshots, click elements, fill forms"@
    } else {
        Seq::<char>::empty()
    }) + (if web_search_enabled {
        "\n- **web_search** — search the web via Brave Search API"@
    } else {
        Seq::<char>::empty()
    })
        + "\n\nWorkers do NOT have conversation context or memory access. Provide all necessary context in the task description."@
}

/// The conversation-context fragment. The template's conditions treat an
/// empty name like an absent one, so an empty server or channel name leaves
/// its line out.
pub open spec fn conversation_context_text(
    platform: Seq<char>,
    server_name: Option<Seq<char>>,
    channel_name: Option<Seq<char>>,
) -> Seq<char> {
    "\nPlatform: "@ + platform + (match server_name {
        Some(s) => if s.len() > 0 {
            "\nServer: "@ + s
        } else {
            Seq::<char>::empty()
        },
        None => Seq::<char>::empty(),
    }) + (match channel_name {
        Some(c) => if c.len() > 0 {
            "\nChannel: #"@ + c
        } else {
            Seq::<char>::empty()
        },
        None => Seq::<char>::empty(),
    }) + "\nMultiple users may be present. Each message is prefixed with [username]."@
}

/// The skill-instructions fragment for one skill.
pub open spec fn skills_worker_text(skill_name: Seq<char>, skill_content: Seq<char>) -> Seq<char> {
    "\n## Skill Instructions\n\nYou are executing the **"@ + skill_name
        + "** skill. Follow these instructions:\n\n"@ + skill_content
}

/// One skill's block in the skills listing.
pub open spec fn skill_block_text(skill: SkillInfo) -> Seq<char> {
    "\n  <skill>\n    <name>"@ + skill.name@ + "</name>\n    <description>"@ + skill.description@
        + "</description>\n    <location>"@ + skill.location@ + "</location>\n  </skill>"@
}

/// The blocks of a skills listing, in order.
pub open spec fn skill_blocks_text(skills: Seq<SkillInfo>) -> Seq<char>
    decreases skills.len(),
{
    if skills.len() == 0 {
        Seq::empty()
    } else {
        skill_blocks_text(skills.drop_last()) + skill_block_text(skills.last())
    }
}

/// The skills fragment for a channel process: the fixed preamble, one block
/// per skill in order, and the closing tag.
pub open spec fn skills_channel_text(skills: Seq<SkillInfo>) -> Seq<char> {
    "\n## Available Skills\n\nYou have access to the following skills. Skills contain specialized instructions for specific tasks. When a user's request matches a skill, spawn a worker to handle it and name the skill in the task description so the worker knows which skill to follow.\n\nTo use a skill, spawn a worker with a task like: \"Use the [skill-name] skill to [task]. Read the skill instructions at [path] first.\"\n\n<available_skills>"@
        + skill_blocks_text(skills) + "\n</available_skills>"@
}

/// The synthesis prompt for a word bound and raw memory sections.
pub open spec fn cortex_synthesis_text(max_words: nat, raw_sections: Seq<char>) -> Seq<char> {
    "Synthesize the following memory data into a concise briefing of "@ + dec_str(max_words)
        + " words or fewer.\n\n## Raw Memory Data\n\n"@ + raw_sections
}

/// The ingestion prompt for one chunk of a file.
pub open spec fn ingestion_chunk_text(
    filename: Seq<char>,
    chunk_number: nat,
    total_chunks: nat,
    chunk: Seq<char>,
) -> Seq<char> {
    "## File: "@ + filename + " (chunk "@ + dec_str(chunk_number) + " of "@ + dec_str(total_chunks)
        + ")\n\nProcess the following text and extract any useful memories:\n\n---\n\n"@ + chunk
        + "\n\n---"@
}

/// Relies on minijinja::Environment::render_str over the fixed
/// worker-compact template: the template is a constant with valid syntax and
/// both variables are supplied, so rendering cannot fail, and the result is
/// the template text with `{{ remove_count }}` replaced by the decimal count
/// and `{{ recap }}` by the recap, verbatim — a function of the two
/// arguments alone.
#[verifier::external_body]
fn render_compact_marker(remove_count: usize, recap: &str) -> (r: String)
    ensures
        r@ == compact_marker_text(remove_count as nat, recap@),
{
    let env = minijinja::Environment::new();
    let ctx: minijinja::Value = [
        ("remove_count", minijinja::Value::from(remove_count)),
        ("recap", minijinja::Value::from(recap)),
    ]
        .into_iter()
        .collect();
    env.render_str(FRAGMENT_SYSTEM_WORKER_COMPACT, ctx)
        .expect("the worker-compact template is a fixed constant with valid syntax")
}

/// Relies on minijinja::Environment::render_str over the fixed truncation
/// template: a constant with valid syntax and its one variable supplied, so
/// rendering cannot fail; the result substitutes the decimal count.
#[verifier::external_body]
fn render_truncation_marker(remove_count: usize) -> (r: String)
    ensures
        r@ == truncation_marker_text(remove_count as nat),
{
    let env = minijinja::Environment::new();
    let ctx: minijinja::Value = [("remove_count", minijinja::Value::from(remove_count))]
        .into_iter()
        .collect();
    env.render_str(FRAGMENT_SYSTEM_TRUNCATION, ctx)
        .expect("the truncation template is a fixed constant with valid syntax")
}

/// Relies on minijinja::Environment::render_str over the fixed
/// worker-capabilities template: a constant with valid syntax and both
/// switches supplied, so rendering cannot fail; the conditional blocks keep
/// or drop the browser and web-search lines with minijinja's
/// leading-whitespace trimming, as `capabilities_text` spells out.
#[verifier::external_body]
fn render_capabilities_fragment(browser_enabled: bool, web_search_enabled: bool) -> (r: String)
    ensures
        r@ == capabilities_text(browser_enabled, web_search_enabled),
{
    let env = minijinja::Environment::new();
    let ctx: minijinja::Value = [
        ("browser_enabled", minijinja::Value::from(browser_enabled)),
        ("web_search_enabled", minijinja::Value::from(web_search_enabled)),
    ]
        .into_iter()
        .collect();
    env.render_str(FRAGMENT_WORKER_CAPABILITIES, ctx)
        .expect("the capabilities template is a fixed constant with valid syntax")
}

/// Relies on minijinja::Environment::render_str over the fixed
/// conversation-context template: a constant with valid syntax and all three
/// variables supplied, so rendering cannot fail; the conditional lines follow
/// minijinja's truthiness (absent or empty names drop their line), as
/// `conversation_context_text` spells out.
#[verifier::external_body]
fn render_conversation_fragment(
    platform: &str,
    server_name: Option<&str>,
    channel_name: Option<&str>,
) -> (r: String)
    ensures
        r@ == conversation_context_text(
            platform@,
            opt_str_text(server_name),
            opt_str_text(channel_name),
        ),
{
    let env = minijinja::Environment::new();
    let server = server_name.map_or(minijinja::Value::from(()), minijinja::Value::from);
    let channel = channel_name.map_or(minijinja::Value::from(()), minijinja::Value::from);
    let ctx: minijinja::Value = [
        ("platform", minijinja::Value::from(platform)),
        ("server_name", server),
        ("channel_name", channel),
    ].into_iter().collect();
    env.render_str(FRAGMENT_CONVERSATION_CONTEXT, ctx)
        .expect("the conversation-context template is a fixed constant with valid syntax")
}

/// Relies on minijinja::Environment::render_str over the fixed skills
/// listing template: a constant with valid syntax and its list supplied, so
/// rendering cannot fail; the loop emits one block per skill in order, as
/// `skills_channel_text` spells out.
#[verifier::external_body]
fn render_skills_channel_fragment(skills: &Vec<SkillInfo>) -> (r: String)
    ensures
        r@ == skills_channel_text(skills@),
{
    let env = minijinja::Environment::new();
    let list: minijinja::Value = skills.iter().map(|s| {
        [("name", minijinja::Value::from(s.name.as_str())),
         ("description", minijinja::Value::from(s.description.as_str())),
         ("location", minijinja::Value::from(s.location.as_str()))]
            .into_iter().collect::<minijinja::Value>()
    }).collect();
    let ctx: minijinja::Value = [("skills", list)].into_iter().collect();
    env.render_str(FRAGMENT_SKILLS_CHANNEL, ctx)
        .expect("the skills listing template is a fixed constant with valid syntax")
}

/// Relies on minijinja::Environment::render_str over the fixed
/// skill-instructions template: a constant with valid syntax and both
/// variables supplied, so rendering cannot fail.
#[verifier::external_body]
fn render_skills_worker_fragment(skill_name: &str, skill_content: &str) -> (r: String)
    ensures
        r@ == skills_worker_text(skill_name@, skill_content@),
{
    let env = minijinja::Environment::new();
    let ctx: minijinja::Value = [
        ("skill_name", minijinja::Value::from(skill_name)),
        ("skill_content", minijinja::Value::from(skill_content)),
    ]
        .into_iter()
        .collect();
    env.render_str(FRAGMENT_SKILLS_WORKER, ctx)
        .expect("the skill-instructions template is a fixed constant with valid syntax")
}

/// Relies on minijinja::Environment::render_str over the fixed synthesis
/// template: a constant with valid syntax and both variables supplied, so
/// rendering cannot fail; the word bound renders in decimal.
#[verifier::external_body]
fn render_cortex_fragment(max_words: usize, raw_sections: &str) -> (r: String)
    ensures
        r@ == cortex_synthesis_text(max_words as nat, raw_sections@),
{
    let env = minijinja::Environment::new();
    let ctx: minijinja::Value = [
        ("max_words", minijinja::Value::from(max_words)),
        ("raw_sections", minijinja::Value::from(raw_sections)),
    ]
        .into_iter()
        .collect();
    env.render_str(FRAGMENT_SYSTEM_CORTEX_SYNTHESIS, ctx)
        .expect("the synthesis template is a fixed constant with valid syntax")
}

/// Relies on minijinja::Environment::render_str over the fixed ingestion
/// template: a constant with valid syntax and all four variables supplied,
/// so rendering cannot fail; the chunk numbers render in decimal.
#[verifier::external_body]
fn render_ingestion_fragment(
    filename: &str,
    chunk_number: usize,
    total_chunks: usize,
    chunk: &str,
) -> (r: String)
    ensures
        r@ == ingestion_chunk_text(filename@, chunk_number as nat, total_chunks as nat, chunk@),
{
    let env = minijinja::Environment::new();
    let ctx: minijinja::Value = [
        ("filename", minijinja::Value::from(filename)),
        ("chunk_number", minijinja::Value::from(chunk_number)),
        ("total_chunks", minijinja::Value::from(total_chunks)),
        ("chunk", minijinja::Value::from(chunk)),
    ].into_iter().collect();
    env.render_str(FRAGMENT_SYSTEM_INGESTION_CHUNK, ctx)
        .expect("the ingestion template is a fixed constant with valid syntax")
}

/// A template could not be registered or rendered.
pub struct RenderError {
    /// The name of the template involved.
    pub template: String,
    /// What minijinja reported.
    pub detail: String,
}

/// Information about a skill for template rendering.
pub struct SkillInfo {
    pub name: String,
    pub description: String,
    pub location: String,
}

/// Template engine for rendering system prompts with dynamic variables.
///
/// Templates are registered once at construction and are not reloadable at
/// runtime. Language selection is done at initialization; only English
/// templates exist, and a request for another language falls back to them
/// while keeping the requested code.
///
/// Only the inline fragment templates are bundled with this crate; the
/// process templates (`channel`, `branch`, `worker`, `cortex`,
/// `cortex_bulletin`, `compactor`, `memory_persistence`, `ingestion`) live in
/// separate prompt files that are not part of it, so rendering one of those
/// names — in particular [`PromptEngine::render_channel_prompt`] — returns
/// the template-not-found error.
pub struct PromptEngine {
    env: minijinja::Environment<'static>,
    language: String,
}

impl PromptEngine {
    /// The configured language code, as a specification value.
    pub closed spec fn spec_language(&self) -> Seq<char> {
        self.language@
    }

    /// Create a new engine with templates for the given language.
    pub fn new(language: &str) -> (r: Result<PromptEngine, RenderError>)
        ensures
            r matches Ok(engine) ==> engine.spec_language() == language@,
    {
        let mut env = env_new();
        register(&mut env, "fragments/worker_capabilities", FRAGMENT_WORKER_CAPABILITIES)?;
        register(&mut env, "fragments/conversation_context", FRAGMENT_CONVERSATION_CONTEXT)?;
        register(&mut env, "fragments/skills_channel", FRAGMENT_SKILLS_CHANNEL)?;
        register(&mut env, "fragments/skills_worker", FRAGMENT_SKILLS_WORKER)?;
        register(&mut env, "fragments/system/retrigger", FRAGMENT_SYSTEM_RETRIGGER)?;
        register(&mut env, "fragments/system/truncation", FRAGMENT_SYSTEM_TRUNCATION)?;
        register(&mut env, "fragments/system/worker_overflow", FRAGMENT_SYSTEM_WORKER_OVERFLOW)?;
        register(&mut env, "fragments/system/worker_compact", FRAGMENT_SYSTEM_WORKER_COMPACT)?;
        register(&mut env, "fragments/system/memory_persistence", FRAGMENT_SYSTEM_MEMORY_PERSISTENCE)?;
        register(&mut env, "fragments/system/cortex_synthesis", FRAGMENT_SYSTEM_CORTEX_SYNTHESIS)?;
        register(&mut env, "fragments/system/ingestion_chunk", FRAGMENT_SYSTEM_INGESTION_CHUNK)?;
        Ok(PromptEngine { env, language: String::from_str(language) })
    }

    /// Render a template by name with the given context value.
    pub fn render(&self, template_name: &str, context: minijinja::Value) -> (r: Result<
        String,
        RenderError,
    >)
        ensures
            r matches Err(e) ==> e.template@ == template_name@,
    {
        match env_render(&self.env, template_name, context) {
            Ok(text) => Ok(text),
            Err(e) => Err(
                RenderError {
                    template: String::from_str(template_name),
                    detail: mj_error_text(&e),
                },
            ),
        }
    }

    /// Render a template with a map of named context variables.
    pub fn render_map(&self, template_name: &str, vars: HashMap<String, minijinja::Value>) -> (r:
        Result<String, RenderError>)
        ensures
            r matches Err(e) ==> e.template@ == template_name@,
    {
        self.render(template_name, value_of_hash_map(vars))
    }

    /// Render a simple template that takes no variables.
    pub fn render_static(&self, template_name: &str) -> (r: Result<String, RenderError>)
        ensures
            r matches Err(e) ==> e.template@ == template_name@,
    {
        self.render(template_name, value_undefined())
    }

    /// Render the worker capabilities fragment: always succeeds, with the
    /// browser and web-search lines present exactly when their switches are
    /// on.
    pub fn render_worker_capabilities(&self, browser_enabled: bool, web_search_enabled: bool) -> (r:
        Result<String, RenderError>)
        ensures
            r matches Ok(t) && t@ == capabilities_text(browser_enabled, web_search_enabled),
    {
        Ok(render_capabilities_fragment(browser_enabled, web_search_enabled))
    }

    /// Render the conversation context fragment: always succeeds, with the
    /// server and channel lines present exactly when a non-empty name was
    /// given.
    pub fn render_conversation_context(
        &self,
        platform: &str,
        server_name: Option<&str>,
        channel_name: Option<&str>,
    ) -> (r: Result<String, RenderError>)
        ensures
            r matches Ok(t) && t@ == conversation_context_text(
                platform@,
                opt_str_text(server_name),
                opt_str_text(channel_name),
            ),
    {
        Ok(render_conversation_fragment(platform, server_name, channel_name))
    }

    /// Render the skills fragment for a channel process: always succeeds,
    /// with one block per skill, in order.
    pub fn render_skills_channel(&self, skills: Vec<SkillInfo>) -> (r: Result<String, RenderError>)
        ensures
            r matches Ok(t) && t@ == skills_channel_text(skills@),
    {
        Ok(render_skills_channel_fragment(&skills))
    }

    /// Render the skill-instructions fragment for a worker process: always
    /// succeeds.
    pub fn render_skills_worker(&self, skill_name: &str, skill_content: &str) -> (r: Result<
        String,
        RenderError,
    >)
        ensures
            r matches Ok(t) && t@ == skills_worker_text(skill_name@, skill_content@),
    {
        Ok(render_skills_worker_fragment(skill_name, skill_content))
    }

    /// Render the system retrigger message: a fixed text with no template
    /// variables, so rendering is the template source itself and always
    /// succeeds.
    pub fn render_system_retrigger(&self) -> (r: Result<String, RenderError>)
        ensures
            r matches Ok(t) && t@ == retrigger_text(),
    {
        Ok(
            String::from_str(
                "[System: a background process has completed. Check your history and status block for the result, then respond to the user.]",
            ),
        )
    }

    /// Render the truncation marker: always succeeds, substituting the
    /// removal count into the fixed template.
    pub fn render_system_truncation(&self, remove_count: usize) -> (r: Result<String, RenderError>)
        ensures
            r matches Ok(t) && t@ == truncation_marker_text(remove_count as nat),
    {
        Ok(render_truncation_marker(remove_count))
    }

    /// Render the worker overflow recovery message: a fixed text with no
    /// template variables, so rendering is the template source itself and
    /// always succeeds.
    pub fn render_system_worker_overflow(&self) -> (r: Result<String, RenderError>)
        ensures
            r matches Ok(t) && t@ == overflow_notice_text(),
    {
        Ok(
            String::from_str(
                "[System: Previous attempt exceeded context limit. Older history has been compacted.]",
            ),
        )
    }

    /// Render the worker compaction marker from the removal count and the
    /// recap of the removed messages: always succeeds, and the marker states
    /// the count and carries the recap.
    pub fn render_system_worker_compact(&self, remove_count: usize, recap: &str) -> (r: Result<
        String,
        RenderError,
    >)
        ensures
            r matches Ok(t) && t@ == compact_marker_text(remove_count as nat, recap@),
    {
        Ok(render_compact_marker(remove_count, recap))
    }

    /// Render the memory persistence prompt: a fixed text with no template
    /// variables, so rendering is the template source itself and always
    /// succeeds.
    pub fn render_system_memory_persistence(&self) -> (r: Result<String, RenderError>)
        ensures
            r matches Ok(t) && t@ == memory_persistence_text(),
    {
        Ok(
            String::from_str(
                "Review the recent conversation and persist any important information as memories. Start by recalling existing memories related to the topics discussed, then save new or updated memories with appropriate associations.",
            ),
        )
    }

    /// Render the cortex synthesis prompt: always succeeds.
    pub fn render_system_cortex_synthesis(&self, max_words: usize, raw_sections: &str) -> (r:
        Result<String, RenderError>)
        ensures
            r matches Ok(t) && t@ == cortex_synthesis_text(max_words as nat, raw_sections@),
    {
        Ok(render_cortex_fragment(max_words, raw_sections))
    }

    /// Render the ingestion chunk prompt: always succeeds.
    pub fn render_system_ingestion_chunk(
        &self,
        filename: &str,
        chunk_number: usize,
        total_chunks: usize,
        chunk: &str,
    ) -> (r: Result<String, RenderError>)
        ensures
            r matches Ok(t) && t@ == ingestion_chunk_text(
                filename@,
                chunk_number as nat,
                total_chunks as nat,
                chunk@,
            ),
    {
        Ok(render_ingestion_fragment(filename, chunk_number, total_chunks, chunk))
    }

    /// Render the complete channel system prompt with all dynamic
    /// components. The `channel` process template is not bundled with this
    /// crate, so this fails with the template-not-found error until one is
    /// registered.
    pub fn render_channel_prompt(
        &self,
        identity_context: Option<String>,
        memory_bulletin: Option<String>,
        skills_prompt: Option<String>,
        worker_capabilities: String,
        conversation_context: Option<String>,
        status_text: Option<String>,
    ) -> (r: Result<String, RenderError>)
        ensures
            r matches Err(e) ==> e.template@ == "channel"@,
    {
        let pairs = vec![
            ("identity_context", value_of_opt(&identity_context)),
            ("memory_bulletin", value_of_opt(&memory_bulletin)),
            ("skills_prompt", value_of_opt(&skills_prompt)),
            ("worker_capabilities", value_of_str(worker_capabilities.as_str())),
            ("conversation_context", value_of_opt(&conversation_context)),
            ("status_text", value_of_opt(&status_text)),
        ];
        self.render("channel", value_map(pairs))
    }

    /// Get the configured language code.
    pub fn language(&self) -> (r: &str)
        ensures
            r@ == self.spec_language(),
    {
        self.language.as_str()
    }
}

/// The template value of an optional string: the string, or `none`.
fn value_of_opt(o: &Option<String>) -> minijinja::Value {
    match o {
        Some(s) => value_of_str(s.as_str()),
        None => value_none(),
    }
}

/// Register one template, mapping a registration failure to the engine's own
/// error.
fn register(env: &mut minijinja::Environment<'static>, name: &'static str, source: &'static str) -> (r:
    Result<(), RenderError>)
    ensures
        r matches Err(e) ==> e.template@ == name@,
{
    match env_add_template(env, name, source) {
        Ok(()) => Ok(()),
        Err(e) => Err(RenderError { template: String::from_str(name), detail: mj_error_text(&e) }),
    }
}


/// Fragment template: what tools a spawned worker has.
const FRAGMENT_WORKER_CAPABILITIES: &'static str = r#"
## Worker Capabilities

When you spawn a worker, it has access to the following tools:

- **shell** — run shell commands
- **file** — read, write, search, and list files
- **exec** — run subprocesses with environment control
- **set_status** — update worker status visible in your status block
{%- if browser_enabled %}
- **browser** — browse web pages, take screenshots, click elements, fill forms
{%- endif %}
{%- if web_search_enabled %}
- **web_search** — search the web via Brave Search API
{%- endif %}

Workers do NOT have conversation context or memory access. Provide all necessary context in the task description.
"#;

/// Fragment template: where a conversation takes place.
const FRAGMENT_CONVERSATION_CONTEXT: &'static str = r#"
Platform: {{ platform }}
{%- if server_name %}
Server: {{ server_name }}
{%- endif %}
{%- if channel_name %}
Channel: #{{ channel_name }}
{%- endif %}
Multiple users may be present. Each message is prefixed with [username].
"#;

/// Fragment template: the skills available to a channel process.
const FRAGMENT_SKILLS_CHANNEL: &'static str = r#"
## Available Skills

You have access to the following skills. Skills contain specialized instructions for specific tasks. When a user's request matches a skill, spawn a worker to handle it and name the skill in the task description so the worker knows which skill to follow.

To use a skill, spawn a worker with a task like: "Use the [skill-name] skill to [task]. Read the skill instructions at [path] first."

<available_skills>
{%- for skill in skills %}
  <skill>
    <name>{{ skill.name }}</name>
    <description>{{ skill.description }}</description>
    <location>{{ skill.location }}</location>
  </skill>
{%- endfor %}
</available_skills>
"#;

/// Fragment template: the instructions of one skill, for a worker.
const FRAGMENT_SKILLS_WORKER: &'static str = r#"
## Skill Instructions

You are executing the **{{ skill_name }}** skill. Follow these instructions:

{{ skill_content }}
"#;

/// System fragment: ask the model to pick up a finished background process.
const FRAGMENT_SYSTEM_RETRIGGER: &'static str = "[System: a background process has completed. Check your history and status block for the result, then respond to the user.]";

/// System fragment: marker for truncated history.
const FRAGMENT_SYSTEM_TRUNCATION: &'static str = "[System: {{ remove_count }} older messages were truncated due to context limits. Some conversation history has been lost.]";

/// System fragment: notice after overflow recovery.
const FRAGMENT_SYSTEM_WORKER_OVERFLOW: &'static str = "[System: Previous attempt exceeded context limit. Older history has been compacted.]";

/// System fragment: the compaction marker, carrying the removal count and the
/// recap.
const FRAGMENT_SYSTEM_WORKER_COMPACT: &'static str = r#"[System: Earlier work has been summarized to free up context. {{ remove_count }} messages compacted.]

## Work completed so far:

{{ recap }}"#;

/// System fragment: ask the model to persist memories.
const FRAGMENT_SYSTEM_MEMORY_PERSISTENCE: &'static str = "Review the recent conversation and persist any important information as memories. Start by recalling existing memories related to the topics discussed, then save new or updated memories with appropriate associations.";

/// System fragment: synthesize raw memory data into a briefing.
const FRAGMENT_SYSTEM_CORTEX_SYNTHESIS: &'static str = r#"Synthesize the following memory data into a concise briefing of {{ max_words }} words or fewer.

## Raw Memory Data

{{ raw_sections }}"#;

/// System fragment: one chunk of an ingested file.
const FRAGMENT_SYSTEM_INGESTION_CHUNK: &'static str = r#"## File: {{ filename }} (chunk {{ chunk_number }} of {{ total_chunks }})

Process the following text and extract any useful memories:

---

{{ chunk }}

---"#;

} // verus!
