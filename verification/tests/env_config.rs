use astropress_cli::env::{parse_env_text, resolve_deploy_target, resolve_local_provider, EnvError};
use astropress_cli::providers::LocalProvider;

#[test]
fn explicit_provider_overrides_env_provider() {
    let env = parse_env_text("ASTROPRESS_LOCAL_PROVIDER=supabase\n");

    assert_eq!(
        resolve_local_provider(&env, Some(LocalProvider::Supabase)).unwrap(),
        LocalProvider::Supabase
    );
}

#[test]
fn deploy_target_defaults_follow_local_provider() {
    let env = parse_env_text("ASTROPRESS_LOCAL_PROVIDER=supabase\n");

    assert_eq!(resolve_deploy_target(&env, None).unwrap(), "vercel");
    assert_eq!(
        resolve_deploy_target(&env, Some("cloudflare")).unwrap(),
        "cloudflare"
    );
}

#[test]
fn deploy_target_prefers_explicit_env_target() {
    let env = parse_env_text("ASTROPRESS_LOCAL_PROVIDER=sqlite\nASTROPRESS_DEPLOY_TARGET=netlify\n");

    assert_eq!(resolve_deploy_target(&env, None).unwrap(), "netlify");
}

#[test]
fn env_text_skips_comments_blank_lines_and_lines_without_equals() {
    let env = parse_env_text("# comment=1\n\nNOEQUALS\nA=1\nB=x=y\nA=2\nLAST=no-newline");
    assert_eq!(env.len(), 3);
    assert_eq!(env.get("A").unwrap(), "2");
    assert_eq!(env.get("B").unwrap(), "x=y");
    assert_eq!(env.get("LAST").unwrap(), "no-newline");
    assert!(env.get("# comment").is_none());
    assert!(env.get("NOEQUALS").is_none());
}

#[test]
fn empty_values_are_kept() {
    let env = parse_env_text("EMPTY=\n=novalue\n");
    assert_eq!(env.get("EMPTY").unwrap(), "");
    assert_eq!(env.get("").unwrap(), "novalue");
}

#[test]
fn local_provider_defaults_to_sqlite_and_rejects_unknown_names() {
    let env = parse_env_text("");
    assert_eq!(resolve_local_provider(&env, None).unwrap(), LocalProvider::Sqlite);
    assert_eq!(resolve_deploy_target(&env, None).unwrap(), "github-pages");

    let env = parse_env_text("ASTROPRESS_LOCAL_PROVIDER=supabase\n");
    assert_eq!(resolve_local_provider(&env, None).unwrap(), LocalProvider::Supabase);

    let env = parse_env_text("ASTROPRESS_LOCAL_PROVIDER=postgres\n");
    assert_eq!(
        resolve_local_provider(&env, None),
        Err(EnvError::UnknownLocalProvider("postgres".to_string()))
    );
    assert_eq!(
        resolve_deploy_target(&env, None),
        Err(EnvError::UnknownLocalProvider("postgres".to_string()))
    );
    assert_eq!(resolve_deploy_target(&env, Some("netlify")).unwrap(), "netlify");
    assert_eq!(
        resolve_local_provider(&env, Some(LocalProvider::Sqlite)).unwrap(),
        LocalProvider::Sqlite
    );
}
