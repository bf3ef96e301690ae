use codex_scout::protocol::output_schema;
use codex_scout::scout::{
    is_subscription_backend, CliScout, ConfigError, ModelSettings, RepoTracerConfig, ScoutRequest,
};

fn config(provider: &str, executable: &str) -> RepoTracerConfig {
    RepoTracerConfig {
        model: ModelSettings {
            backend: provider.to_string(),
            executable: Some(executable.to_string()),
            model: "default".to_string(),
            reasoning_effort: "low".to_string(),
            timeout_ms: 2_000,
        },
    }
}

fn request(query: &str) -> ScoutRequest {
    ScoutRequest {
        query: query.to_string(),
        root: "/srv/repository".to_string(),
        focus: None,
        max_turns: None,
        timeout_nanos: None,
    }
}

fn has_pair(args: &Vec<String>, name: &str, value: &str) -> bool {
    args.windows(2).any(|pair| pair[0] == name && pair[1] == value)
}

#[test]
fn provider_args_use_auto_review_workspace_and_are_isolated() {
    let mut codex_config = config("codex-cli", "codex");
    codex_config.model.model = "gpt-5.6-luna".to_string();
    codex_config.model.reasoning_effort = "medium".to_string();
    let codex = CliScout::from_config(&codex_config).unwrap();
    let codex_args = codex.app_server_args();
    assert_eq!(&codex_args[..3], ["app-server", "--listen", "stdio://"]);
    for feature in [
        "apps",
        "browser_use",
        "computer_use",
        "hooks",
        "image_generation",
        "multi_agent",
        "plugins",
    ] {
        assert!(has_pair(&codex_args, "--disable", feature));
    }
    assert!(has_pair(&codex_args, "--config", "model_reasoning_effort=\"medium\""));
    assert!(has_pair(&codex_args, "--config", "project_doc_max_bytes=0"));
    assert!(has_pair(&codex_args, "--config", "approval_policy=\"on-request\""));
    assert!(has_pair(&codex_args, "--config", "approvals_reviewer=\"auto_review\""));
    assert!(has_pair(&codex_args, "--config", "default_permissions=\":workspace\""));
    assert!(has_pair(&codex_args, "--config", "service_tier=\"default\""));
    assert!(CliScout::from_config(&config("gemini-cli", "gemini")).is_err());
}

#[test]
fn rejects_unknown_reasoning_effort() {
    let mut cfg = config("codex-cli", "codex");
    cfg.model.reasoning_effort = "maximum".to_string();
    assert!(CliScout::from_config(&cfg)
        .err()
        .unwrap()
        .message()
        .contains("use low, medium, or high"));
}

#[test]
fn scout_prompt_requests_a_ranked_bounded_handoff() {
    let scout = CliScout::from_config(&config("codex-cli", "codex")).unwrap();
    let prompt = scout.prompt(&request("trace auth"));
    assert!(prompt.contains("at most 3 repository tool calls"));
    assert!(prompt.contains("under 120 lines"));
    assert!(prompt.contains("normally 3-4"));
    assert!(prompt.contains("at most 5"));
    assert!(prompt.contains("40 lines or fewer"));
    assert!(prompt.contains("implementation and tests first"));
    let schema = output_schema();
    let properties = schema.at("properties");
    assert_eq!(properties.at("citations").at("maxItems").as_u64(), Some(5));
    assert_eq!(properties.at("answer").at("maxLength").as_u64(), Some(3000));
}

#[test]
fn all_arguments_stand_in_order() {
    let scout = CliScout::from_config(&config("codex", "codex")).unwrap();
    assert_eq!(
        scout.app_server_args(),
        [
            "app-server",
            "--listen",
            "stdio://",
            "--disable",
            "apps",
            "--disable",
            "browser_use",
            "--disable",
            "computer_use",
            "--disable",
            "image_generation",
            "--disable",
            "hooks",
            "--disable",
            "multi_agent",
            "--disable",
            "plugins",
            "--config",
            "approval_policy=\"on-request\"",
            "--config",
            "approvals_reviewer=\"auto_review\"",
            "--config",
            "default_permissions=\":workspace\"",
            "--config",
            "project_doc_max_bytes=0",
            "--config",
            "service_tier=\"default\"",
            "--config",
            "model_reasoning_effort=\"low\"",
        ]
    );
}

#[test]
fn backends_are_matched_in_any_case() {
    for backend in ["codex", "CODEX", "Codex-CLI", "codex-cli"] {
        assert!(is_subscription_backend(&config(backend, "codex")), "{}", backend);
    }
    for backend in ["", "codex ", "codexcli", "gemini-cli", "\u{212a}odex", "co\u{10d}ex"] {
        assert!(!is_subscription_backend(&config(backend, "codex")), "{}", backend);
    }
}

#[test]
fn settings_come_from_the_configuration() {
    let mut cfg = config("Codex", "/opt/codex");
    cfg.model.model = "  gpt-5\n".to_string();
    cfg.model.reasoning_effort = "\thigh\u{a0}".to_string();
    let scout = CliScout::from_config(&cfg).unwrap();
    assert_eq!(scout.label(), "GPT scout via Codex CLI");
    assert_eq!(scout.executable(), "/opt/codex");
    assert_eq!(scout.model(), Some("gpt-5"));
    assert_eq!(scout.reasoning_effort(), "high");
    assert_eq!(scout.timeout_for(&request("q")), Some(2_000_000_000));
    let mut own = request("q");
    own.timeout_nanos = Some(7);
    assert_eq!(scout.timeout_for(&own), Some(7));

    cfg.model.executable = None;
    cfg.model.timeout_ms = 0;
    for name in ["", "   ", "default", "account-default", " default "] {
        cfg.model.model = name.to_string();
        let scout = CliScout::from_config(&cfg).unwrap();
        assert_eq!(scout.model(), None);
        assert_eq!(scout.executable(), "codex");
        assert_eq!(scout.timeout_for(&request("q")), None);
    }
}

#[test]
fn each_refusal_says_what_is_not_supported() {
    let mut cfg = config("Gemini", "codex");
    cfg.model.model = "llama".to_string();
    cfg.model.reasoning_effort = "none".to_string();
    let error = CliScout::from_config(&cfg).err().unwrap();
    assert!(matches!(error, ConfigError::UnsupportedBackend(_)));
    assert_eq!(error.message(), "unsupported GPT backend `Gemini`");

    cfg.model.backend = "codex".to_string();
    let error = CliScout::from_config(&cfg).err().unwrap();
    assert!(matches!(error, ConfigError::UnsupportedModel(_)));
    assert_eq!(
        error.message(),
        "unsupported model `llama`; RepoTracer currently supports GPT models"
    );

    cfg.model.model = "gpt-".to_string();
    cfg.model.reasoning_effort = " Low ".to_string();
    let error = CliScout::from_config(&cfg).err().unwrap();
    assert!(matches!(error, ConfigError::UnsupportedEffort(_)));
    assert_eq!(
        error.message(),
        "unsupported scout reasoning effort `Low`; use low, medium, or high"
    );
}

#[test]
fn prompt_names_the_focus_and_ends_in_the_question() {
    let scout = CliScout::from_config(&config("codex", "codex")).unwrap();
    let mut asked = request("where is auth?");
    let plain = scout.prompt(&asked);
    assert!(plain.starts_with("Read-only repository scout. Search the repository;"));
    assert!(plain.ends_with("omit optional context.\n\nQuestion: where is auth?"));
    asked.focus = Some("src/auth".to_string());
    assert!(scout.prompt(&asked).ends_with(
        "omit optional context. Prefer `src/auth` when relevant.\n\nQuestion: where is auth?"
    ));
}

#[test]
fn a_probe_takes_a_minute_at_most() {
    let mut cfg = config("codex", "codex");
    let probe = CliScout::from_config(&cfg).unwrap().probe_request("/srv/repository");
    assert_eq!(probe.query, "Cite the first line of one relevant source or manifest file.");
    assert_eq!(probe.root, "/srv/repository");
    assert_eq!(probe.focus, None);
    assert_eq!(probe.max_turns, Some(2));
    assert_eq!(probe.timeout_nanos, Some(2_000_000_000));
    for timeout_ms in [0, 60_000, 90_000, u64::MAX] {
        cfg.model.timeout_ms = timeout_ms;
        let probe = CliScout::from_config(&cfg).unwrap().probe_request("/srv/repository");
        assert_eq!(probe.timeout_nanos, Some(60_000_000_000));
    }
}
