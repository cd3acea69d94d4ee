//! The command reference that `lineark usage` prints.

use lineark::usage::command_reference;

fn reference() -> String {
    command_reference(false, false)
}

#[test]
fn usage_prints_command_reference() {
    let out = reference();
    assert!(out.contains("lineark"));
    assert!(out.contains("COMMANDS"));
    assert!(out.contains("whoami"));
    assert!(out.contains("teams"));
    assert!(out.contains("issues"));
    assert!(out.contains("AUTH"));
}

#[test]
fn usage_mentions_global_options() {
    let out = reference();
    assert!(out.contains("--api-token"));
    assert!(out.contains("--format"));
}

#[test]
fn usage_includes_write_commands() {
    let out = reference();
    assert!(out.contains("issues create"));
    assert!(out.contains("issues update"));
    assert!(out.contains("issues archive"));
    assert!(out.contains("issues unarchive"));
    assert!(out.contains("issues delete"));
    assert!(out.contains("comments create"));
}

#[test]
fn usage_includes_documents_commands() {
    let out = reference();
    assert!(out.contains("documents list"));
    assert!(out.contains("documents read"));
    assert!(out.contains("documents create"));
    assert!(out.contains("documents update"));
    assert!(out.contains("documents delete"));
}

#[test]
fn usage_includes_embeds_commands() {
    let out = reference();
    assert!(out.contains("embeds download"));
    assert!(out.contains("embeds upload"));
}

#[test]
fn usage_includes_cycles_flags() {
    let out = reference();
    assert!(out.contains("--active"));
    assert!(out.contains("--around-active"));
}

#[test]
fn usage_includes_projects_create() {
    assert!(reference().contains("projects create"));
}

#[test]
fn usage_includes_milestones_commands() {
    let out = reference();
    assert!(out.contains("project-milestones list"));
    assert!(out.contains("project-milestones read"));
    assert!(out.contains("project-milestones create"));
    assert!(out.contains("project-milestones update"));
    assert!(out.contains("project-milestones delete"));
}

#[test]
fn usage_includes_name_resolution() {
    assert!(reference().contains("NAME RESOLUTION"));
}

#[test]
fn usage_includes_me_alias() {
    assert!(reference().contains("`me`"));
}

#[test]
fn usage_includes_projects_read() {
    assert!(reference().contains("projects read"));
}

#[test]
fn usage_includes_led_by_me() {
    assert!(reference().contains("--led-by-me"));
}

#[test]
fn usage_includes_members_flag() {
    assert!(reference().contains("--members"));
}

#[test]
fn usage_includes_self_update_commands() {
    let out = reference();
    assert!(out.contains("self update"));
    assert!(out.contains("--check"));
}

#[test]
fn usage_includes_issues_list_project_filter() {
    assert!(reference().contains("--project"));
}

#[test]
fn usage_hints_where_the_token_was_found() {
    let none = command_reference(false, false);
    assert!(none.contains("2. $LINEAR_API_TOKEN env var\n"));
    assert!(none.ends_with("3. ~/.linear_api_token file\n"));
    assert!(!none.contains("(set)"));
    assert!(!none.contains("(found)"));

    let both = command_reference(true, true);
    assert!(both.contains("2. $LINEAR_API_TOKEN env var (set)\n"));
    assert!(both.ends_with("3. ~/.linear_api_token file (found)\n"));

    let env_only = command_reference(true, false);
    assert!(env_only.contains("env var (set)\n"));
    assert!(!env_only.contains("(found)"));
}

#[test]
fn usage_starts_with_the_title_line() {
    assert!(reference().starts_with("lineark — Linear CLI for humans and LLMs\n"));
}
