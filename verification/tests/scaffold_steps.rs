use astropress_cli::env::{format_env_map, parse_env_text};
use astropress_cli::providers::{AppHost, DataServices};
use astropress_cli::scaffold::{
    append_feature_stubs, check_scaffold_target, fallback_project_name, gitignore_contents,
    host_label, merge_package_scripts, ready_banner, scaffold_plan, services_label, ScaffoldStep,
    ScaffoldTarget,
};
use astropress_cli::string_map::StringMap;
use astropress_cli::text::{pad_right_exec, path_join_exec, str_eq, trim_end_newlines};

#[test]
fn stubs_are_appended_after_the_trailing_newlines_are_dropped() {
    assert_eq!(
        append_feature_stubs("A=1\n\n\n", "\nB=2\n"),
        Some("A=1\nB=2\n".to_string())
    );
    assert_eq!(append_feature_stubs("", "X=1\n"), Some("X=1\n".to_string()));
    assert_eq!(append_feature_stubs("A=1\n", ""), None);
}

#[test]
fn non_empty_target_directories_are_refused() {
    assert_eq!(check_scaffold_target("/tmp/demo", false, false), Ok(ScaffoldTarget::CreateDirectory));
    assert_eq!(check_scaffold_target("/tmp/demo", true, false), Ok(ScaffoldTarget::UseExisting));
    assert_eq!(
        check_scaffold_target("/tmp/demo", true, true),
        Err("Refusing to scaffold into `/tmp/demo` because the directory is not empty.".to_string())
    );
}

#[test]
fn project_name_falls_back_to_astropress_site() {
    assert_eq!(fallback_project_name(Some("demo")), "demo");
    assert_eq!(fallback_project_name(None), "astropress-site");
}

#[test]
fn scaffold_scripts_replace_same_named_scripts_and_keep_others() {
    let mut scripts = StringMap::new();
    scripts.insert("dev".to_string(), "old dev".to_string());
    scripts.insert("lint".to_string(), "biome check".to_string());
    let package_scripts = vec![
        ("dev".to_string(), "astropress dev".to_string()),
        ("doctor:strict".to_string(), "astropress doctor --strict".to_string()),
        ("dev".to_string(), "astropress dev --open".to_string()),
    ];
    merge_package_scripts(&mut scripts, &package_scripts);
    assert_eq!(scripts.len(), 3);
    assert_eq!(scripts.get("dev").unwrap(), "astropress dev --open");
    assert_eq!(scripts.get("lint").unwrap(), "biome check");
    assert_eq!(scripts.get("doctor:strict").unwrap(), "astropress doctor --strict");
}

#[test]
fn gitignore_keeps_generated_files_and_env_out() {
    let g = gitignore_contents();
    assert_eq!(g, ".astro/\ndist/\nnode_modules/\n.astropress/\n.env\n");
    assert!(g.lines().any(|l| l == ".env"));
}

#[test]
fn ready_banner_pads_the_passwords() {
    let lines = ready_banner("correct-horse", "battery-staple");
    assert_eq!(lines.len(), 11);
    assert_eq!(lines[0], "┌──────────────────────────────────────────────────────┐");
    assert_eq!(
        lines[5],
        format!("│  Admin pass:    {:<38}│", "correct-horse")
    );
    assert_eq!(
        lines[7],
        format!("│  Editor pass:   {:<38}│", "battery-staple")
    );
    assert_eq!(lines[5].chars().count(), 57);
    let long = "x".repeat(40);
    let lines = ready_banner(&long, "");
    assert_eq!(lines[5], format!("│  Admin pass:    {long}│"));
    assert_eq!(lines[7], format!("│  Editor pass:   {:<38}│", ""));
}

#[test]
fn telemetry_labels_fall_back_to_none() {
    assert_eq!(host_label(Some(AppHost::Vercel)), "vercel");
    assert_eq!(host_label(None), "none");
    assert_eq!(services_label(Some(DataServices::Supabase)), "supabase");
    assert_eq!(services_label(None), "none");
}

#[test]
fn env_files_read_back_what_was_written() {
    let mut env = StringMap::new();
    env.insert("ASTROPRESS_CONTENT_SERVICES".to_string(), "supabase".to_string());
    env.insert("ADMIN_PASSWORD".to_string(), "a=b".to_string());
    env.insert("EMPTY".to_string(), String::new());
    let text = format_env_map(&env);
    assert_eq!(text, "ASTROPRESS_CONTENT_SERVICES=supabase\nADMIN_PASSWORD=a=b\nEMPTY=\n");
    let back = parse_env_text(&text);
    assert_eq!(back.len(), 3);
    assert_eq!(back.get("ADMIN_PASSWORD").unwrap(), "a=b");
    assert_eq!(back.get("EMPTY").unwrap(), "");
    assert_eq!(back.get("ASTROPRESS_CONTENT_SERVICES").unwrap(), "supabase");
    assert_eq!(format_env_map(&StringMap::new()), "");
}

#[test]
fn text_helpers() {
    assert!(str_eq("abc", "abc"));
    assert!(!str_eq("abc", "abd"));
    assert!(!str_eq("ab", "abc"));
    assert!(str_eq("", ""));
    assert_eq!(trim_end_newlines("a\n\n"), "a");
    assert_eq!(trim_end_newlines("a\nb"), "a\nb");
    assert_eq!(trim_end_newlines("\n\n"), "");
    assert_eq!(pad_right_exec("ab", 4), "ab  ");
    assert_eq!(pad_right_exec("abcde", 4), "abcde");
    assert_eq!(path_join_exec("/a", "b"), "/a/b");
    assert_eq!(path_join_exec("/a/", "b"), "/a/b");
    assert_eq!(path_join_exec("", "b"), "b");
    assert_eq!(pad_right_exec("é", 3), "é  ");
}

#[test]
fn gitignore_is_written_before_the_repository_is_set_up() {
    let plan = scaffold_plan();
    let pos = |step: ScaffoldStep| plan.iter().position(|s| *s == step).unwrap();
    assert_eq!(plan.len(), 18);
    assert_eq!(plan[0], ScaffoldStep::PrepareDirectory);
    assert!(pos(ScaffoldStep::WriteEnv) < pos(ScaffoldStep::WriteGitignore));
    assert!(pos(ScaffoldStep::WriteGitignore) < pos(ScaffoldStep::InitGitRepository));
    assert_eq!(plan[plan.len() - 1], ScaffoldStep::PrintSummary);
}
