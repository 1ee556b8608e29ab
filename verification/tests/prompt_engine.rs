use std::collections::HashMap;
use worker_engine::prompts::{PromptEngine, SkillInfo};

fn engine() -> PromptEngine {
    match PromptEngine::new("en") {
        Ok(e) => e,
        Err(e) => panic!("engine construction failed: {}", e.detail),
    }
}

#[test]
fn language_is_kept_even_when_falling_back() {
    assert_eq!(engine().language(), "en");
    match PromptEngine::new("fr") {
        Ok(e) => assert_eq!(e.language(), "fr"),
        Err(e) => panic!("fallback construction failed: {}", e.detail),
    }
}

#[test]
fn truncation_marker_renders_count() {
    let text = engine().render_system_truncation(7).unwrap_or_else(|e| panic!("{}", e.detail));
    assert_eq!(
        text,
        "[System: 7 older messages were truncated due to context limits. Some conversation history has been lost.]",
    );
}

#[test]
fn overflow_notice_is_fixed() {
    let text = engine().render_system_worker_overflow().unwrap_or_else(|e| panic!("{}", e.detail));
    assert_eq!(
        text,
        "[System: Previous attempt exceeded context limit. Older history has been compacted.]",
    );
}

#[test]
fn compact_marker_renders_count_and_recap() {
    let text = engine()
        .render_system_worker_compact(5, "- Called `shell` ({})\n")
        .unwrap_or_else(|e| panic!("{}", e.detail));
    assert_eq!(
        text,
        "[System: Earlier work has been summarized to free up context. 5 messages compacted.]\n\n## Work completed so far:\n\n- Called `shell` ({})\n",
    );
}

#[test]
fn retrigger_and_memory_prompts_are_fixed() {
    let e = engine();
    assert_eq!(
        e.render_system_retrigger().unwrap_or_else(|e| panic!("{}", e.detail)),
        "[System: a background process has completed. Check your history and status block for the result, then respond to the user.]",
    );
    assert_eq!(
        e.render_system_memory_persistence().unwrap_or_else(|e| panic!("{}", e.detail)),
        "Review the recent conversation and persist any important information as memories. Start by recalling existing memories related to the topics discussed, then save new or updated memories with appropriate associations.",
    );
}

#[test]
fn capabilities_render_optional_tools() {
    let e = engine();
    let head = "\n## Worker Capabilities\n\nWhen you spawn a worker, it has access to the following tools:\n\n- **shell** — run shell commands\n- **file** — read, write, search, and list files\n- **exec** — run subprocesses with environment control\n- **set_status** — update worker status visible in your status block";
    let browser_line = "\n- **browser** — browse web pages, take screenshots, click elements, fill forms";
    let web_search_line = "\n- **web_search** — search the web via Brave Search API";
    let tail = "\n\nWorkers do NOT have conversation context or memory access. Provide all necessary context in the task description.";

    let both = e.render_worker_capabilities(true, true).unwrap_or_else(|e| panic!("{}", e.detail));
    assert_eq!(both, format!("{head}{browser_line}{web_search_line}{tail}"));
    let neither = e.render_worker_capabilities(false, false).unwrap_or_else(|e| panic!("{}", e.detail));
    assert_eq!(neither, format!("{head}{tail}"));
    let browser_only = e.render_worker_capabilities(true, false).unwrap_or_else(|e| panic!("{}", e.detail));
    assert_eq!(browser_only, format!("{head}{browser_line}{tail}"));
    let search_only = e.render_worker_capabilities(false, true).unwrap_or_else(|e| panic!("{}", e.detail));
    assert_eq!(search_only, format!("{head}{web_search_line}{tail}"));
}

#[test]
fn conversation_context_renders_optionals() {
    let e = engine();
    let full = e
        .render_conversation_context("discord", Some("ops"), Some("general"))
        .unwrap_or_else(|e| panic!("{}", e.detail));
    assert_eq!(
        full,
        "\nPlatform: discord\nServer: ops\nChannel: #general\nMultiple users may be present. Each message is prefixed with [username].",
    );
    let bare = e
        .render_conversation_context("webchat", None, None)
        .unwrap_or_else(|e| panic!("{}", e.detail));
    assert_eq!(
        bare,
        "\nPlatform: webchat\nMultiple users may be present. Each message is prefixed with [username].",
    );
    // an empty name counts as absent, like the template's condition
    let empty_names = e
        .render_conversation_context("slack", Some(""), Some(""))
        .unwrap_or_else(|e| panic!("{}", e.detail));
    assert_eq!(
        empty_names,
        "\nPlatform: slack\nMultiple users may be present. Each message is prefixed with [username].",
    );
}

#[test]
fn skills_templates_render_fields() {
    let e = engine();
    let head = "\n## Available Skills\n\nYou have access to the following skills. Skills contain specialized instructions for specific tasks. When a user's request matches a skill, spawn a worker to handle it and name the skill in the task description so the worker knows which skill to follow.\n\nTo use a skill, spawn a worker with a task like: \"Use the [skill-name] skill to [task]. Read the skill instructions at [path] first.\"\n\n<available_skills>";
    let listed = e
        .render_skills_channel(vec![SkillInfo {
            name: "deploy".to_string(),
            description: "ship it".to_string(),
            location: "/skills/deploy.md".to_string(),
        }])
        .unwrap_or_else(|e| panic!("{}", e.detail));
    let block = "\n  <skill>\n    <name>deploy</name>\n    <description>ship it</description>\n    <location>/skills/deploy.md</location>\n  </skill>";
    assert_eq!(listed, format!("{head}{block}\n</available_skills>"));

    let empty = e
        .render_skills_channel(Vec::new())
        .unwrap_or_else(|e| panic!("{}", e.detail));
    assert_eq!(empty, format!("{head}\n</available_skills>"));

    let one = e
        .render_skills_worker("deploy", "press the green button")
        .unwrap_or_else(|e| panic!("{}", e.detail));
    assert_eq!(
        one,
        "\n## Skill Instructions\n\nYou are executing the **deploy** skill. Follow these instructions:\n\npress the green button",
    );
}

#[test]
fn cortex_and_ingestion_prompts_render_variables() {
    let e = engine();
    let synthesis = e
        .render_system_cortex_synthesis(100, "## Section A\ndata")
        .unwrap_or_else(|e| panic!("{}", e.detail));
    assert_eq!(
        synthesis,
        "Synthesize the following memory data into a concise briefing of 100 words or fewer.\n\n## Raw Memory Data\n\n## Section A\ndata",
    );

    let chunk = e
        .render_system_ingestion_chunk("notes.txt", 2, 5, "chunk body")
        .unwrap_or_else(|e| panic!("{}", e.detail));
    assert_eq!(
        chunk,
        "## File: notes.txt (chunk 2 of 5)\n\nProcess the following text and extract any useful memories:\n\n---\n\nchunk body\n\n---",
    );
}

#[test]
fn render_map_passes_variables_through() {
    let e = engine();
    let mut vars: HashMap<String, minijinja::Value> = HashMap::new();
    vars.insert("remove_count".to_string(), minijinja::Value::from(3usize));
    let text = e
        .render_map("fragments/system/truncation", vars)
        .unwrap_or_else(|e| panic!("{}", e.detail));
    assert!(text.contains("3 older messages were truncated"));
}

#[test]
fn render_accepts_a_prebuilt_context_value() {
    let e = engine();
    let text = e
        .render("fragments/skills_worker", minijinja::Value::UNDEFINED)
        .unwrap_or_else(|e| panic!("{}", e.detail));
    assert!(text.contains("## Skill Instructions"));
}

#[test]
fn channel_prompt_needs_the_unbundled_template() {
    let e = engine();
    match e.render_channel_prompt(None, None, None, "caps".to_string(), None, None) {
        Err(err) => assert_eq!(err.template, "channel"),
        Ok(_) => panic!("the channel process template is not bundled here"),
    }
}

#[test]
fn unknown_template_reports_its_name() {
    let e = engine();
    match e.render_static("channel") {
        Err(err) => {
            assert_eq!(err.template, "channel");
            assert!(!err.detail.is_empty());
        }
        Ok(_) => panic!("the process templates are not bundled here"),
    }
}
