use logchef::commands::auth::{
    entered_server, login_context_name, login_flow, logout, resolve_context_name, server_choice,
    store_login, AuthAction, AuthArgs, ServerChoice,
};
use logchef::api::MetaData;
use logchef::auth::AuthResult;
use logchef::cli::GlobalArgs;
use logchef::commands::config::{mask_token, set_value, setting_key, try_mask_token, SettingKey};
use logchef::config::{
    config_file_name, context_name_from_url, default_limit, default_regex_color, default_since,
    default_timeout, default_version, Config, Context, ContextDefaults, HighlightsConfig,
    CONFIG_VERSION,
};
use logchef::error::Error;

fn config_with(names: &[(&str, &str)]) -> Config {
    let mut config = Config::default();
    for (name, url) in names {
        config.add_context(name.to_string(), Context::new(url.to_string())).unwrap();
    }
    config
}

fn names(config: &Config) -> Vec<String> {
    config.context_names().iter().map(|s| s.to_string()).collect()
}

fn global(context: Option<&str>, server: Option<&str>) -> GlobalArgs {
    GlobalArgs {
        context: context.map(|s| s.to_string()),
        server: server.map(|s| s.to_string()),
        token: None,
    }
}

fn config_message(r: Result<(), Error>) -> String {
    match r {
        Err(Error::Config(m)) => m,
        other => panic!("unexpected: {:?}", other),
    }
}

fn other_message<T: std::fmt::Debug>(r: Result<T, Error>) -> String {
    match r {
        Err(Error::Other(m)) => m,
        other => panic!("unexpected: {:?}", other),
    }
}

#[test]
fn defaults_of_the_schema() {
    assert_eq!(default_version(), 1);
    assert_eq!(CONFIG_VERSION, 1);
    assert_eq!(default_timeout(), 30);
    assert_eq!(default_limit(), 100);
    assert_eq!(default_since(), "15m");
    assert_eq!(default_regex_color(), "magenta");
    assert_eq!(config_file_name(), "logchef.json");
    let config = Config::default();
    assert_eq!(config.version, 1);
    assert!(config.is_empty());
    assert_eq!(config.current_context_name(), None);
    assert!(config.current_context().is_none());
    let defaults = ContextDefaults::default();
    assert_eq!(defaults.limit, 0);
    assert_eq!(defaults.since, "");
    assert!(defaults.team.is_none() && defaults.source.is_none() && defaults.timezone.is_none());
    let highlights = HighlightsConfig::default();
    assert!(highlights.custom_keywords.is_empty() && !highlights.disable_builtin);
}

#[test]
fn new_context_has_no_token() {
    let context = Context::new("https://logs".to_string());
    assert_eq!(context.server_url, "https://logs");
    assert_eq!(context.timeout_secs, 30);
    assert!(!context.is_authenticated());
    assert!(context.token_expires_at.is_none());
}

#[test]
fn first_context_added_becomes_current() {
    let config = config_with(&[("a", "https://a"), ("b", "https://b")]);
    assert_eq!(config.current_context_name(), Some("a"));
    assert_eq!(names(&config), vec!["a", "b"]);
    assert_eq!(config.current_context().unwrap().server_url, "https://a");
    assert_eq!(config.get_context("b").unwrap().server_url, "https://b");
    assert!(config.get_context("c").is_none());
    assert!(!config.is_empty());
}

#[test]
fn add_context_refuses_a_name_twice() {
    let mut config = config_with(&[("a", "https://a")]);
    let r = config.add_context("a".to_string(), Context::new("https://other".to_string()));
    assert_eq!(config_message(r), "Context 'a' already exists");
    assert_eq!(config.get_context("a").unwrap().server_url, "https://a");
    assert_eq!(names(&config), vec!["a"]);
}

#[test]
fn add_or_update_replaces_in_place_and_switches() {
    let mut config = config_with(&[("a", "https://a"), ("b", "https://b")]);
    config.add_or_update_context("b".to_string(), Context::new("https://b2".to_string()));
    assert_eq!(names(&config), vec!["a", "b"]);
    assert_eq!(config.get_context("b").unwrap().server_url, "https://b2");
    assert_eq!(config.current_context_name(), Some("b"));
    config.add_or_update_context("c".to_string(), Context::new("https://c".to_string()));
    assert_eq!(names(&config), vec!["a", "b", "c"]);
    assert_eq!(config.current_context_name(), Some("c"));
}

#[test]
fn use_context_needs_the_context() {
    let mut config = config_with(&[("a", "https://a"), ("b", "https://b")]);
    assert!(config.use_context("b").is_ok());
    assert_eq!(config.current_context_name(), Some("b"));
    let r = config.use_context("zz");
    assert_eq!(config_message(r), "Context 'zz' not found");
    assert_eq!(config.current_context_name(), Some("b"));
}

#[test]
fn delete_context_moves_current_to_the_first_left() {
    let mut config = config_with(&[("a", "https://a"), ("b", "https://b"), ("c", "https://c")]);
    assert!(config.delete_context("b").is_ok());
    assert_eq!(names(&config), vec!["a", "c"]);
    assert_eq!(config.current_context_name(), Some("a"));
    assert!(config.delete_context("a").is_ok());
    assert_eq!(config.current_context_name(), Some("c"));
    assert!(config.delete_context("c").is_ok());
    assert_eq!(config.current_context_name(), None);
    assert!(config.is_empty());
    assert_eq!(config_message(config.delete_context("c")), "Context 'c' not found");
}

#[test]
fn rename_context_keeps_place_and_current() {
    let mut config = config_with(&[("a", "https://a"), ("b", "https://b")]);
    assert!(config.rename_context("a", "z").is_ok());
    assert_eq!(names(&config), vec!["z", "b"]);
    assert_eq!(config.current_context_name(), Some("z"));
    assert_eq!(config.get_context("z").unwrap().server_url, "https://a");
    assert!(config.rename_context("b", "y").is_ok());
    assert_eq!(config.current_context_name(), Some("z"));
    assert_eq!(config_message(config.rename_context("nope", "x")), "Context 'nope' not found");
    assert_eq!(config_message(config.rename_context("z", "y")), "Context 'y' already exists");
    assert_eq!(config_message(config.rename_context("z", "z")), "Context 'z' already exists");
    assert_eq!(names(&config), vec!["z", "y"]);
}

#[test]
fn find_context_by_url_takes_the_first() {
    let config = config_with(&[("a", "https://x"), ("b", "https://y"), ("c", "https://y")]);
    let (name, context) = config.find_context_by_url("https://y").unwrap();
    assert_eq!(name, "b");
    assert_eq!(context.server_url, "https://y");
    assert!(config.find_context_by_url("https://y/").is_none());
}

#[test]
fn contexts_can_be_changed_in_place() {
    let mut config = config_with(&[("a", "https://a"), ("b", "https://b")]);
    config.get_context_mut("b").unwrap().token = Some("t".to_string());
    assert!(config.get_context("b").unwrap().is_authenticated());
    assert!(!config.get_context("a").unwrap().is_authenticated());
    assert!(config.get_context_mut("zz").is_none());
    config.current_context_mut().unwrap().timeout_secs = 5;
    assert_eq!(config.get_context("a").unwrap().timeout_secs, 5);
    config.current_context = Some("gone".to_string());
    assert!(config.current_context_mut().is_none());
    assert!(config.current_context().is_none());
}

#[test]
fn context_name_is_the_host() {
    assert_eq!(context_name_from_url("https://logs.example.com:8080/x?y=1"), "logs.example.com");
    assert_eq!(context_name_from_url("http://127.0.0.1:9000"), "127.0.0.1");
    assert_eq!(context_name_from_url("https://LOGS.Example.com"), "logs.example.com");
    assert_eq!(context_name_from_url("not a url"), "default");
    assert_eq!(context_name_from_url("logs.example.com"), "default");
    assert_eq!(context_name_from_url("unix:/run/foo.socket"), "default");
    assert_eq!(context_name_from_url(""), "default");
}

#[test]
fn auth_action_prefers_logout() {
    assert_eq!(AuthArgs { logout: true, status: true }.action(), AuthAction::Logout);
    assert_eq!(AuthArgs { logout: false, status: true }.action(), AuthAction::Status);
    assert_eq!(AuthArgs { logout: false, status: false }.action(), AuthAction::Login);
}

#[test]
fn context_name_for_auth() {
    let config = config_with(&[("a", "https://x"), ("b", "https://y")]);
    assert_eq!(resolve_context_name(&config, &global(Some("zz"), Some("https://y"))).unwrap(), "zz");
    assert_eq!(resolve_context_name(&config, &global(None, Some("https://y"))).unwrap(), "b");
    assert_eq!(
        resolve_context_name(&config, &global(None, Some("https://new.example/"))).unwrap(),
        "new.example"
    );
    assert_eq!(resolve_context_name(&config, &global(None, None)).unwrap(), "a");
    let empty = Config::default();
    assert_eq!(
        other_message(resolve_context_name(&empty, &global(None, None))),
        "No current context set"
    );
}

#[test]
fn logout_forgets_the_token() {
    let mut config = config_with(&[("a", "https://a")]);
    {
        let context = config.get_context_mut("a").unwrap();
        context.token = Some("t".to_string());
        context.token_expires_at = Some("2030-01-01T00:00:00Z".to_string());
    }
    assert!(logout(&mut config, "a"));
    let context = config.get_context("a").unwrap();
    assert!(context.token.is_none() && context.token_expires_at.is_none());
    assert_eq!(context.server_url, "https://a");
    assert!(!logout(&mut config, "b"));
}

#[test]
fn server_choice_for_login() {
    let config = config_with(&[("a", "https://x"), ("b", "https://y")]);
    match server_choice(&config, &global(Some("b"), Some("https://given"))).unwrap() {
        ServerChoice::Known(url) => assert_eq!(url, "https://given"),
        other => panic!("unexpected: {:?}", other),
    }
    match server_choice(&config, &global(Some("b"), None)).unwrap() {
        ServerChoice::Known(url) => assert_eq!(url, "https://y"),
        other => panic!("unexpected: {:?}", other),
    }
    assert_eq!(
        other_message(server_choice(&config, &global(Some("zz"), None))),
        "Context 'zz' not found"
    );
    match server_choice(&config, &global(None, None)).unwrap() {
        ServerChoice::Ask { default } => assert_eq!(default.as_deref(), Some("https://x")),
        other => panic!("unexpected: {:?}", other),
    }
    match server_choice(&Config::default(), &global(None, None)).unwrap() {
        ServerChoice::Ask { default } => assert_eq!(default, None),
        other => panic!("unexpected: {:?}", other),
    }
}

#[test]
fn entered_server_is_trimmed() {
    assert_eq!(entered_server("  https://logs \n").unwrap(), "https://logs");
    assert_eq!(other_message(entered_server("   ")), "Server URL is required");
    assert_eq!(other_message(entered_server("")), "Server URL is required");
}

#[test]
fn login_flow_needs_issuer_and_client() {
    let meta = |issuer: Option<&str>, client: Option<&str>| MetaData {
        version: "1".to_string(),
        build_info: None,
        oidc_issuer: issuer.map(|s| s.to_string()),
        cli_client_id: client.map(|s| s.to_string()),
    };
    assert!(login_flow("https://logs/", meta(Some("https://idp"), Some("cli"))).is_ok());
    let text = "CLI authentication not configured on this server. Ask your admin to set oidc.cli_client_id in server config.";
    assert_eq!(other_message(login_flow("https://logs", meta(Some("https://idp"), None))), text);
    assert_eq!(other_message(login_flow("https://logs", meta(None, Some("cli")))), text);
    assert_eq!(other_message(login_flow("https://logs", meta(None, None))), text);
}

#[test]
fn login_is_stored_under_the_context_s_name() {
    let mut config = config_with(&[("a", "https://x")]);
    assert_eq!(login_context_name(&config, &Some("mine".to_string()), "https://x"), "mine");
    assert_eq!(login_context_name(&config, &None, "https://x"), "a");
    assert_eq!(login_context_name(&config, &None, "https://logs.example"), "logs.example");
    let result = AuthResult {
        token: "svc-123".to_string(),
        expires_at: Some("2030-01-01T00:00:00Z".to_string()),
        user_email: Some("a@b.com".to_string()),
    };
    let email = store_login(&mut config, "n".to_string(), "https://logs".to_string(), result);
    assert_eq!(email.as_deref(), Some("a@b.com"));
    assert_eq!(config.current_context_name(), Some("n"));
    let context = config.get_context("n").unwrap();
    assert_eq!(context.token.as_deref(), Some("svc-123"));
    assert_eq!(context.token_expires_at.as_deref(), Some("2030-01-01T00:00:00Z"));
    assert_eq!(context.timeout_secs, 30);
    assert_eq!(context.defaults.limit, 0);
}

#[test]
fn setting_keys_have_two_names() {
    assert_eq!(setting_key("timeout"), Some(SettingKey::Timeout));
    assert_eq!(setting_key("timeout_secs"), Some(SettingKey::Timeout));
    assert_eq!(setting_key("team"), Some(SettingKey::Team));
    assert_eq!(setting_key("defaults.team"), Some(SettingKey::Team));
    assert_eq!(setting_key("defaults.source"), Some(SettingKey::Source));
    assert_eq!(setting_key("limit"), Some(SettingKey::Limit));
    assert_eq!(setting_key("defaults.since"), Some(SettingKey::Since));
    assert_eq!(setting_key("timezone"), Some(SettingKey::Timezone));
    assert_eq!(setting_key("Timeout"), None);
    assert_eq!(setting_key("defaults.timeout"), None);
}

#[test]
fn set_value_changes_one_setting() {
    let mut context = Context::new("https://logs".to_string());
    assert!(set_value(&mut context, "timeout", "45").is_ok());
    assert_eq!(context.timeout_secs, 45);
    assert!(set_value(&mut context, "timeout_secs", "+7").is_ok());
    assert_eq!(context.timeout_secs, 7);
    assert!(set_value(&mut context, "team", "ops").is_ok());
    assert!(set_value(&mut context, "defaults.source", "nginx").is_ok());
    assert!(set_value(&mut context, "limit", "4294967295").is_ok());
    assert!(set_value(&mut context, "since", "2h").is_ok());
    assert!(set_value(&mut context, "timezone", "UTC").is_ok());
    assert_eq!(context.defaults.team.as_deref(), Some("ops"));
    assert_eq!(context.defaults.source.as_deref(), Some("nginx"));
    assert_eq!(context.defaults.limit, 4294967295);
    assert_eq!(context.defaults.since, "2h");
    assert_eq!(context.defaults.timezone.as_deref(), Some("UTC"));
    assert_eq!(context.timeout_secs, 7);
    assert_eq!(context.server_url, "https://logs");
}

#[test]
fn set_value_refuses_bad_values() {
    let mut context = Context::new("https://logs".to_string());
    assert_eq!(other_message(set_value(&mut context, "timeout", "soon")), "Invalid timeout value");
    assert_eq!(other_message(set_value(&mut context, "timeout", "-1")), "Invalid timeout value");
    assert_eq!(other_message(set_value(&mut context, "timeout", "")), "Invalid timeout value");
    assert_eq!(
        other_message(set_value(&mut context, "timeout", "18446744073709551616")),
        "Invalid timeout value"
    );
    assert_eq!(
        other_message(set_value(&mut context, "limit", "4294967296")),
        "Invalid limit value"
    );
    assert_eq!(other_message(set_value(&mut context, "limit", "1e3")), "Invalid limit value");
    assert_eq!(
        other_message(set_value(&mut context, "colour", "red")),
        "Unknown key: 'colour'. Valid keys: team, source, limit, since, timezone, timeout"
    );
    assert_eq!(context.timeout_secs, 30);
    assert_eq!(context.defaults.limit, 0);
    assert!(set_value(&mut context, "timeout", "18446744073709551615").is_ok());
    assert_eq!(context.timeout_secs, u64::MAX);
}

#[test]
fn tokens_are_shown_masked() {
    assert_eq!(mask_token("abcdefghijklmnop"), "abcdefghij****...");
    assert_eq!(mask_token("abcdefghijklmno"), "abcdefghij****...");
    assert_eq!(mask_token("abcdefghijklmn"), "****");
    assert_eq!(mask_token(""), "****");
    assert_eq!(try_mask_token("abcdefghi\u{e9}klmnop"), None);
    assert_eq!(try_mask_token("abcdefgh\u{e9}klmnop").as_deref(), Some("abcdefgh\u{e9}****..."));
    assert_eq!(try_mask_token("short").as_deref(), Some("****"));
}
