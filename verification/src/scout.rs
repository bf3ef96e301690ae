//! The scout: its configuration, its prompt and how the app-server is started for it.

use crate::text::{ascii_lowered, contents, lowers_to, same, starts_with, trim, trimmed};
use vstd::prelude::*;
use vstd::string::*;

verus! {

/// What the scout calls itself.
pub const GPT_SCOUT_LABEL: &'static str = "GPT scout via Codex CLI";

/// What the prompt says before the question.
pub const PROMPT_RULES: &'static str =
    "Read-only repository scout. Search the repository; never edit, use the network, or delegate. Use at most 3 repository tool calls; batch independent searches and reads, and keep each tool result under 120 lines. Answer concisely, then cite the smallest direct evidence covering the question: normally 3-4 repository-relative ranges, at most 5, each ideally 40 lines or fewer. Every material claim needs a citation; cite leaf implementations rather than only dispatch callers. Put implementation and tests first; omit optional context.";

/// What a probe asks.
pub const PROBE_QUERY: &'static str = "Cite the first line of one relevant source or manifest file.";

/// Nanoseconds in a millisecond.
pub const NANOS_PER_MILLI: u128 = 1_000_000;

/// The longest time that a probe may take, in nanoseconds: a minute.
pub const PROBE_LIMIT_NANOS: u128 = 60_000_000_000;

/// How the model is reached.
#[derive(Debug)]
pub struct ModelSettings {
    pub backend: String,
    pub executable: Option<String>,
    pub model: String,
    pub reasoning_effort: String,
    /// No limit where it is 0.
    pub timeout_ms: u64,
}

/// The configuration, as far as the scout reads it.
#[derive(Debug)]
pub struct RepoTracerConfig {
    pub model: ModelSettings,
}

/// Why a configuration is refused.
#[derive(Debug)]
pub enum ConfigError {
    UnsupportedBackend(String),
    UnsupportedModel(String),
    UnsupportedEffort(String),
}

/// A question about a repository.
#[derive(Debug)]
pub struct ScoutRequest {
    pub query: String,
    pub root: String,
    /// A path that is preferred when it is relevant.
    pub focus: Option<String>,
    pub max_turns: Option<u32>,
    pub timeout_nanos: Option<u128>,
}

/// A scout that asks a GPT model through the Codex command line.
#[derive(Debug)]
pub struct CliScout {
    executable: String,
    model: Option<String>,
    reasoning_effort: String,
    timeout_nanos: Option<u128>,
}

/// What a scout is set to.
pub struct ScoutSettings {
    pub executable: Seq<char>,
    /// `None` for the account's default.
    pub model: Option<Seq<char>>,
    pub effort: Seq<char>,
    pub timeout_nanos: Option<u128>,
}

/// The backends that reach a GPT model by a subscription, in any case of their letters.
pub open spec fn is_codex(backend: Seq<char>) -> bool {
    ascii_lowered(backend) == "codex"@ || ascii_lowered(backend) == "codex-cli"@
}

/// The names that stand for the account's default model.
pub open spec fn is_default_model(name: Seq<char>) -> bool {
    name == ""@ || name == "default"@ || name == "account-default"@
}

/// The names of models that are supported.
pub open spec fn is_supported_model(name: Seq<char>) -> bool {
    is_default_model(name) || "gpt-"@.is_prefix_of(name)
}

/// The efforts that a scout can be set to.
pub open spec fn is_effort(effort: Seq<char>) -> bool {
    effort == "low"@ || effort == "medium"@ || effort == "high"@
}

/// What a scout with this configuration is set to.
pub open spec fn settings_of(cfg: RepoTracerConfig) -> ScoutSettings {
    ScoutSettings {
        executable: match cfg.model.executable {
            Some(path) => path@,
            None => "codex"@,
        },
        model: if is_default_model(trimmed(cfg.model.model@)) {
            None
        } else {
            Some(trimmed(cfg.model.model@))
        },
        effort: trimmed(cfg.model.reasoning_effort@),
        timeout_nanos: if cfg.model.timeout_ms > 0 {
            Some((cfg.model.timeout_ms * NANOS_PER_MILLI) as u128)
        } else {
            None
        },
    }
}

/// What holds of the settings of every scout.
pub open spec fn valid_settings(settings: ScoutSettings) -> bool {
    &&& is_effort(settings.effort)
    &&& settings.model matches Some(name) ==> "gpt-"@.is_prefix_of(name)
    &&& settings.timeout_nanos matches Some(nanos) ==> nanos > 0
}

/// The configuration is refused with this error: for its backend, else for its model, else for its
/// effort, and the error names what was refused.
pub open spec fn is_refused(cfg: RepoTracerConfig, error: ConfigError) -> bool {
    match error {
        ConfigError::UnsupportedBackend(backend) => {
            &&& !is_codex(cfg.model.backend@)
            &&& backend@ == cfg.model.backend@
        },
        ConfigError::UnsupportedModel(model) => {
            &&& is_codex(cfg.model.backend@)
            &&& !is_supported_model(trimmed(cfg.model.model@))
            &&& model@ == trimmed(cfg.model.model@)
        },
        ConfigError::UnsupportedEffort(effort) => {
            &&& is_codex(cfg.model.backend@)
            &&& is_supported_model(trimmed(cfg.model.model@))
            &&& !is_effort(trimmed(cfg.model.reasoning_effort@))
            &&& effort@ == trimmed(cfg.model.reasoning_effort@)
        },
    }
}

/// Whether the configuration names a backend that is reached by a subscription.
pub fn is_subscription_backend(cfg: &RepoTracerConfig) -> (found: bool)
    ensures
        found == is_codex(cfg.model.backend@),
{
    let backend = cfg.model.backend.as_str();
    lowers_to(backend, "codex") || lowers_to(backend, "codex-cli")
}

impl ConfigError {
    /// The wording of the error.
    pub open spec fn wording(&self) -> Seq<char> {
        match *self {
            ConfigError::UnsupportedBackend(backend) => "unsupported GPT backend `"@ + backend@
                + "`"@,
            ConfigError::UnsupportedModel(model) => "unsupported model `"@ + model@
                + "`; RepoTracer currently supports GPT models"@,
            ConfigError::UnsupportedEffort(effort) => "unsupported scout reasoning effort `"@
                + effort@ + "`; use low, medium, or high"@,
        }
    }

    /// The wording of the error.
    pub fn message(&self) -> (text: String)
        ensures
            text@ == self.wording(),
    {
        match self {
            ConfigError::UnsupportedBackend(backend) => "unsupported GPT backend `".to_string()
                .concat(backend.as_str())
                .concat("`"),
            ConfigError::UnsupportedModel(model) => "unsupported model `".to_string()
                .concat(model.as_str())
                .concat("`; RepoTracer currently supports GPT models"),
            ConfigError::UnsupportedEffort(effort) => "unsupported scout reasoning effort `"
                .to_string()
                .concat(effort.as_str())
                .concat("`; use low, medium, or high"),
        }
    }
}

/// What the prompt says about the path to prefer.
pub open spec fn focus_text(focus: Option<String>) -> Seq<char> {
    match focus {
        Some(path) => " Prefer `"@ + path@ + "` when relevant."@,
        None => ""@,
    }
}

/// The prompt for a request.
pub open spec fn prompt_text(request: ScoutRequest) -> Seq<char> {
    PROMPT_RULES@ + focus_text(request.focus) + "\n\nQuestion: "@ + request.query@
}

/// How long a request may take that has a limit of its own, or a scout that has one.
pub open spec fn time_limit(own: Option<u128>, standing: Option<u128>) -> Option<u128> {
    match own {
        Some(nanos) => Some(nanos),
        None => standing,
    }
}

/// How long a probe may take of a scout with this limit.
pub open spec fn probe_limit(standing: Option<u128>) -> u128 {
    match standing {
        Some(nanos) => if nanos < PROBE_LIMIT_NANOS {
            nanos
        } else {
            PROBE_LIMIT_NANOS
        },
        None => PROBE_LIMIT_NANOS,
    }
}

/// The arguments of the app-server that are the same for every scout.
pub open spec fn fixed_arguments() -> Seq<Seq<char>> {
    seq![
        "app-server"@,
        "--listen"@,
        "stdio://"@,
        "--disable"@,
        "apps"@,
        "--disable"@,
        "browser_use"@,
        "--disable"@,
        "computer_use"@,
        "--disable"@,
        "image_generation"@,
        "--disable"@,
        "hooks"@,
        "--disable"@,
        "multi_agent"@,
        "--disable"@,
        "plugins"@,
        "--config"@,
        "approval_policy=\"on-request\""@,
        "--config"@,
        "approvals_reviewer=\"auto_review\""@,
        "--config"@,
        "default_permissions=\":workspace\""@,
        "--config"@,
        "project_doc_max_bytes=0"@,
        "--config"@,
        "service_tier=\"default\""@,
    ]
}

/// The arguments of the app-server for a scout with this effort.
pub open spec fn server_arguments(effort: Seq<char>) -> Seq<Seq<char>> {
    fixed_arguments() + seq![
        "--config"@,
        "model_reasoning_effort="@ + (seq!['"'] + effort + seq!['"']),
    ]
}

/// ASCII letters and digits, hyphens and underscores.
pub open spec fn is_bare(text: Seq<char>) -> bool {
    forall|i: int|
        0 <= i < text.len() ==> ('a' <= #[trigger] text[i] <= 'z' || 'A' <= text[i] <= 'Z' || '0'
            <= text[i] <= '9' || text[i] == '-' || text[i] == '_')
}

/// `Display` of `toml::Value::String`: a text of bare characters needs no escapes, so it is
/// written as it is, between double quotes.
#[verifier::external_body]
fn toml_string(text: &str) -> (literal: String)
    requires
        is_bare(text@),
    ensures
        literal@ == seq!['"'] + text@ + seq!['"'],
{
    toml::Value::String(text.to_string()).to_string()
}

proof fn lemma_efforts_are_bare(effort: Seq<char>)
    requires
        is_effort(effort),
    ensures
        is_bare(effort),
{
    reveal_strlit("low");
    reveal_strlit("medium");
    reveal_strlit("high");
}

fn push(args: &mut Vec<String>, text: &str)
    ensures
        contents(final(args)@) == contents(old(args)@).push(text@),
{
    args.push(text.to_string());
    assert(contents(args@) == contents(old(args)@).push(text@));
}

fn push_option(args: &mut Vec<String>, name: &str, value: &str)
    ensures
        contents(final(args)@) == contents(old(args)@).push(name@).push(value@),
{
    push(args, name);
    push(args, value);
}

impl CliScout {
    pub closed spec fn view(&self) -> ScoutSettings {
        ScoutSettings {
            executable: self.executable@,
            model: match self.model {
                Some(name) => Some(name@),
                None => None,
            },
            effort: self.reasoning_effort@,
            timeout_nanos: self.timeout_nanos,
        }
    }

    #[verifier::type_invariant]
    spec fn is_valid(self) -> bool {
        valid_settings(self@)
    }

    /// Sets up a scout, or says what the configuration asks for that is not supported.
    pub fn from_config(cfg: &RepoTracerConfig) -> (result: Result<CliScout, ConfigError>)
        ensures
            result is Ok <==> is_codex(cfg.model.backend@) && is_supported_model(
                trimmed(cfg.model.model@),
            ) && is_effort(trimmed(cfg.model.reasoning_effort@)),
            result matches Err(error) ==> is_refused(*cfg, error),
            match result {
                Ok(scout) => {
                    &&& scout@ == settings_of(*cfg)
                    &&& valid_settings(scout@)
                },
                Err(ConfigError::UnsupportedBackend(backend)) => {
                    &&& !is_codex(cfg.model.backend@)
                    &&& backend@ == cfg.model.backend@
                },
                Err(ConfigError::UnsupportedModel(model)) => {
                    &&& is_codex(cfg.model.backend@)
                    &&& !is_supported_model(trimmed(cfg.model.model@))
                    &&& model@ == trimmed(cfg.model.model@)
                },
                Err(ConfigError::UnsupportedEffort(effort)) => {
                    &&& is_codex(cfg.model.backend@)
                    &&& is_supported_model(trimmed(cfg.model.model@))
                    &&& !is_effort(trimmed(cfg.model.reasoning_effort@))
                    &&& effort@ == trimmed(cfg.model.reasoning_effort@)
                },
            },
    {
        if !is_subscription_backend(cfg) {
            return Err(ConfigError::UnsupportedBackend(cfg.model.backend.clone()));
        }
        let executable = match &cfg.model.executable {
            Some(path) => path.clone(),
            None => "codex".to_string(),
        };
        let name = trim(cfg.model.model.as_str());
        let model = if same(name, "") || same(name, "default") || same(name, "account-default") {
            None
        } else if starts_with(name, "gpt-") {
            Some(name.to_string())
        } else {
            return Err(ConfigError::UnsupportedModel(name.to_string()));
        };
        let effort = trim(cfg.model.reasoning_effort.as_str());
        if !(same(effort, "low") || same(effort, "medium") || same(effort, "high")) {
            return Err(ConfigError::UnsupportedEffort(effort.to_string()));
        }
        let timeout_nanos = if cfg.model.timeout_ms > 0 {
            Some(cfg.model.timeout_ms as u128 * NANOS_PER_MILLI)
        } else {
            None
        };
        Ok(
            CliScout {
                executable,
                model,
                reasoning_effort: effort.to_string(),
                timeout_nanos,
            },
        )
    }

    /// What the scout calls itself.
    pub fn label(&self) -> (label: &'static str)
        ensures
            label@ == GPT_SCOUT_LABEL@,
    {
        GPT_SCOUT_LABEL
    }

    /// The program that is started.
    pub fn executable(&self) -> (path: &str)
        ensures
            path@ == self@.executable,
    {
        self.executable.as_str()
    }

    /// The model that is asked for; `None` for the account's default.
    pub fn model(&self) -> (model: Option<&str>)
        ensures
            model is Some <==> self@.model is Some,
            model matches Some(name) ==> self@.model == Some(name@),
    {
        match &self.model {
            Some(name) => Some(name.as_str()),
            None => None,
        }
    }

    /// The effort that is asked for.
    pub fn reasoning_effort(&self) -> (effort: &str)
        ensures
            effort@ == self@.effort,
            is_effort(effort@),
    {
        proof {
            use_type_invariant(self);
        }
        self.reasoning_effort.as_str()
    }

    /// How long a request may take, in nanoseconds: its own limit before the scout's.
    pub fn timeout_for(&self, request: &ScoutRequest) -> (nanos: Option<u128>)
        ensures
            nanos == time_limit(request.timeout_nanos, self@.timeout_nanos),
            nanos == (if request.timeout_nanos is Some {
                request.timeout_nanos
            } else {
                self@.timeout_nanos
            }),
    {
        match request.timeout_nanos {
            Some(nanos) => Some(nanos),
            None => self.timeout_nanos,
        }
    }

    /// The prompt for a request.
    pub fn prompt(&self, request: &ScoutRequest) -> (prompt: String)
        ensures
            prompt@ == prompt_text(*request),
            request.query@.is_suffix_of(prompt@),
            request.focus is None ==> prompt@ == PROMPT_RULES@ + "\n\nQuestion: "@
                + request.query@,
            request.focus matches Some(path) ==> prompt@ == PROMPT_RULES@ + " Prefer `"@ + path@
                + "` when relevant."@ + "\n\nQuestion: "@ + request.query@,
    {
        proof {
            the_whole_question_is_asked(*request);
        }
        let focus = match &request.focus {
            Some(path) => " Prefer `".to_string().concat(path.as_str()).concat(
                "` when relevant.",
            ),
            None => "".to_string(),
        };
        PROMPT_RULES.to_string().concat(focus.as_str()).concat("\n\nQuestion: ").concat(
            request.query.as_str(),
        )
    }

    /// The arguments that the app-server is started with.
    pub fn app_server_args(&self) -> (args: Vec<String>)
        ensures
            contents(args@) == server_arguments(self@.effort),
            is_effort(self@.effort),
    {
        proof {
            use_type_invariant(self);
            lemma_efforts_are_bare(self@.effort);
        }
        let mut args: Vec<String> = Vec::new();
        push(&mut args, "app-server");
        push_option(&mut args, "--listen", "stdio://");
        push_option(&mut args, "--disable", "apps");
        push_option(&mut args, "--disable", "browser_use");
        push_option(&mut args, "--disable", "computer_use");
        push_option(&mut args, "--disable", "image_generation");
        push_option(&mut args, "--disable", "hooks");
        push_option(&mut args, "--disable", "multi_agent");
        push_option(&mut args, "--disable", "plugins");
        push_option(&mut args, "--config", "approval_policy=\"on-request\"");
        push_option(&mut args, "--config", "approvals_reviewer=\"auto_review\"");
        push_option(&mut args, "--config", "default_permissions=\":workspace\"");
        push_option(&mut args, "--config", "project_doc_max_bytes=0");
        push_option(&mut args, "--config", "service_tier=\"default\"");
        assert(contents(args@) == fixed_arguments());
        let effort = "model_reasoning_effort=".to_string().concat(
            toml_string(self.reasoning_effort.as_str()).as_str(),
        );
        push_option(&mut args, "--config", effort.as_str());
        assert(contents(args@) == server_arguments(self@.effort));
        args
    }

    /// The request that tries the scout out on a repository, for a minute at most.
    pub fn probe_request(&self, root: &str) -> (request: ScoutRequest)
        ensures
            request.query@ == PROBE_QUERY@,
            request.root@ == root@,
            request.focus is None,
            request.max_turns == Some(2u32),
            request.timeout_nanos == Some(
                match self@.timeout_nanos {
                    Some(nanos) => if nanos < PROBE_LIMIT_NANOS {
                        nanos
                    } else {
                        PROBE_LIMIT_NANOS
                    },
                    None => PROBE_LIMIT_NANOS,
                },
            ),
            request.timeout_nanos == Some(probe_limit(self@.timeout_nanos)),
            request.timeout_nanos->0 <= PROBE_LIMIT_NANOS,
            self@.timeout_nanos matches Some(nanos) ==> request.timeout_nanos->0 <= nanos,
    {
        let nanos = match self.timeout_nanos {
            Some(nanos) => if nanos < PROBE_LIMIT_NANOS {
                nanos
            } else {
                PROBE_LIMIT_NANOS
            },
            None => PROBE_LIMIT_NANOS,
        };
        ScoutRequest {
            query: PROBE_QUERY.to_string(),
            root: root.to_string(),
            focus: None,
            max_turns: Some(2),
            timeout_nanos: Some(nanos),
        }
    }
}

/// The prompt starts with the rules, names the path to prefer if there is one, and ends in the
/// whole question, of whatever length, as it was asked.
pub proof fn the_whole_question_is_asked(request: ScoutRequest)
    ensures
        ({
            let prompt = prompt_text(request);
            let query = request.query@;
            let rules = "Read-only repository scout. Search the repository; never edit, use the network, or delegate. Use at most 3 repository tool calls; batch independent searches and reads, and keep each tool result under 120 lines. Answer concisely, then cite the smallest direct evidence covering the question: normally 3-4 repository-relative ranges, at most 5, each ideally 40 lines or fewer. Every material claim needs a citation; cite leaf implementations rather than only dispatch callers. Put implementation and tests first; omit optional context."@;
            let separator = "\n\nQuestion: "@;
            &&& rules.is_prefix_of(prompt)
            &&& query.is_suffix_of(prompt)
            &&& (separator + query).is_suffix_of(prompt)
            &&& request.focus is None ==> prompt.len() == rules.len() + separator.len()
                + query.len()
            &&& request.focus is None ==> prompt == rules + separator + query
            &&& request.focus matches Some(path) ==> prompt.len() == rules.len()
                + " Prefer `"@.len() + path@.len() + "` when relevant."@.len() + separator.len()
                + query.len()
            &&& request.focus matches Some(path) ==> prompt == rules + " Prefer `"@ + path@
                + "` when relevant."@ + separator + query
        }),
{
    let prompt = prompt_text(request);
    let query = request.query@;
    let n = prompt.len() as int;
    let separator = "\n\nQuestion: "@;
    reveal_strlit("");
    assert(""@.len() == 0);
    assert(query == prompt.subrange(n - query.len(), n));
    assert(separator + query == prompt.subrange(n - (separator + query).len(), n));
    assert(PROMPT_RULES@ == prompt.subrange(0, PROMPT_RULES@.len() as int));
    match request.focus {
        None => {
            assert(prompt == PROMPT_RULES@ + separator + query);
        },
        Some(path) => {
            assert(prompt == PROMPT_RULES@ + " Prefer `"@ + path@ + "` when relevant."@
                + separator + query);
        },
    }
}

/// Requests that differ in their question have different prompts, and so have requests that differ
/// in the path to prefer; nothing else of a request is in its prompt.
pub proof fn different_questions_have_different_prompts(a: ScoutRequest, b: ScoutRequest)
    ensures
        a.focus is None && b.focus is None ==> (prompt_text(a) == prompt_text(b) <==> a.query@
            == b.query@),
        a.focus is Some && b.focus is Some && a.focus->0@ == b.focus->0@ ==> (prompt_text(a)
            == prompt_text(b) <==> a.query@ == b.query@),
        a.focus is Some && b.focus is Some && a.query@ == b.query@ ==> (prompt_text(a)
            == prompt_text(b) <==> a.focus->0@ == b.focus->0@),
        a.focus is Some && b.focus is None && a.query@ == b.query@ ==> prompt_text(a)
            != prompt_text(b),
{
    the_whole_question_is_asked(a);
    the_whole_question_is_asked(b);
    let p = prompt_text(a);
    let q = prompt_text(b);
    reveal_strlit(" Prefer `");
    assert(" Prefer `"@.len() == 9);
    if p == q && p.len() >= a.query@.len() && p.len() >= b.query@.len() {
        let n = p.len() as int;
        assert(a.query@ == p.subrange(n - a.query@.len(), n));
        assert(b.query@ == p.subrange(n - b.query@.len(), n));
        if a.focus is Some && b.focus is Some && a.query@ == b.query@ {
            let start: int = PROMPT_RULES@.len() + 9int;
            assert(a.focus->0@ == p.subrange(start, start + a.focus->0@.len()));
            assert(b.focus->0@ == p.subrange(start, start + b.focus->0@.len()));
        }
    }
}

/// The arguments have the option with this value.
pub open spec fn has_option(args: Seq<Seq<char>>, name: Seq<char>, value: Seq<char>) -> bool {
    exists|i: int|
        0 <= i < args.len() - 1 && #[trigger] args[i] == name && args[i + 1] == value
}

/// Whatever the effort, the app-server is started to listen on its standard streams, with every
/// feature off that acts outside the repository, with the settings that have its acts reviewed and
/// kept to the work space, with the effort itself, and with nothing else.
pub proof fn the_server_is_started_in_isolation(effort: Seq<char>)
    ensures
        ({
            let args = server_arguments(effort);
            &&& args.len() == 29
            &&& args[0] == "app-server"@
            &&& args[1] == "--listen"@
            &&& args[2] == "stdio://"@
            &&& has_option(args, "--listen"@, "stdio://"@)
            &&& has_option(args, "--disable"@, "apps"@)
            &&& has_option(args, "--disable"@, "browser_use"@)
            &&& has_option(args, "--disable"@, "computer_use"@)
            &&& has_option(args, "--disable"@, "image_generation"@)
            &&& has_option(args, "--disable"@, "hooks"@)
            &&& has_option(args, "--disable"@, "multi_agent"@)
            &&& has_option(args, "--disable"@, "plugins"@)
            &&& has_option(args, "--config"@, "approval_policy=\"on-request\""@)
            &&& has_option(args, "--config"@, "approvals_reviewer=\"auto_review\""@)
            &&& has_option(args, "--config"@, "default_permissions=\":workspace\""@)
            &&& has_option(args, "--config"@, "project_doc_max_bytes=0"@)
            &&& has_option(args, "--config"@, "service_tier=\"default\""@)
            &&& has_option(
                args,
                "--config"@,
                "model_reasoning_effort="@ + seq!['"'] + effort + seq!['"'],
            )
        }),
{
    let args = server_arguments(effort);
    assert(args[1] == "--listen"@ && args[2] == "stdio://"@);
    assert(args[3] == "--disable"@ && args[4] == "apps"@);
    assert(args[5] == "--disable"@ && args[6] == "browser_use"@);
    assert(args[7] == "--disable"@ && args[8] == "computer_use"@);
    assert(args[9] == "--disable"@ && args[10] == "image_generation"@);
    assert(args[11] == "--disable"@ && args[12] == "hooks"@);
    assert(args[13] == "--disable"@ && args[14] == "multi_agent"@);
    assert(args[15] == "--disable"@ && args[16] == "plugins"@);
    assert(args[17] == "--config"@ && args[18] == "approval_policy=\"on-request\""@);
    assert(args[19] == "--config"@ && args[20] == "approvals_reviewer=\"auto_review\""@);
    assert(args[21] == "--config"@ && args[22] == "default_permissions=\":workspace\""@);
    assert(args[23] == "--config"@ && args[24] == "project_doc_max_bytes=0"@);
    assert(args[25] == "--config"@ && args[26] == "service_tier=\"default\""@);
    assert(args[27] == "--config"@);
    assert(args[28] == "model_reasoning_effort="@ + seq!['"'] + effort + seq!['"']);
}

/// What a scout is set to is what its configuration says: the program, or `codex` for none; the
/// model by its name without white space around it, or none for a name that stands for the
/// default; the effort without white space around it; and the time in nanoseconds, or no limit
/// for 0.
pub proof fn a_scout_is_set_as_it_is_configured(cfg: RepoTracerConfig)
    ensures
        ({
            let settings = settings_of(cfg);
            let name = trimmed(cfg.model.model@);
            &&& cfg.model.executable matches Some(path) ==> settings.executable == path@
            &&& cfg.model.executable is None ==> settings.executable == "codex"@
            &&& settings.model is None <==> name.len() == 0 || name == "default"@ || name
                == "account-default"@
            &&& settings.model matches Some(model) ==> model == name
            &&& settings.effort == trimmed(cfg.model.reasoning_effort@)
            &&& settings.timeout_nanos is None <==> cfg.model.timeout_ms == 0
            &&& settings.timeout_nanos matches Some(nanos) ==> nanos == cfg.model.timeout_ms
                * 1_000_000
        }),
{
    reveal_strlit("");
    assert(""@.len() == 0);
    if trimmed(cfg.model.model@).len() == 0 {
        assert(trimmed(cfg.model.model@) == ""@);
    }
}

/// A backend is supported if it reads `codex` or `codex-cli` in whatever case, a model if it is a
/// name of the default or starts with `gpt-`, an effort if it is low, medium or high; and nothing
/// else is.
pub proof fn what_is_supported(backend: Seq<char>, model: Seq<char>, effort: Seq<char>)
    ensures
        is_codex(backend) <==> ascii_lowered(backend) == "codex"@ || ascii_lowered(backend)
            == "codex-cli"@,
        is_supported_model(model) <==> model.len() == 0 || model == "default"@ || model
            == "account-default"@ || (model.len() >= 4 && model.take(4) == "gpt-"@),
        is_effort(effort) <==> effort == "low"@ || effort == "medium"@ || effort == "high"@,
{
    reveal_strlit("");
    reveal_strlit("gpt-");
    assert(""@.len() == 0);
    assert("gpt-"@.len() == 4);
    if model.len() == 0 {
        assert(model == ""@);
    }
    if model.len() >= 4 {
        assert(model.take(4) == model.subrange(0, 4));
    }
}

/// A refusal names what was refused, and says what would have been taken.
pub proof fn a_refusal_names_what_is_refused(text: String)
    ensures
        ConfigError::UnsupportedBackend(text).wording() == "unsupported GPT backend `"@ + text@
            + "`"@,
        ConfigError::UnsupportedModel(text).wording() == "unsupported model `"@ + text@
            + "`; RepoTracer currently supports GPT models"@,
        ConfigError::UnsupportedEffort(text).wording()
            == "unsupported scout reasoning effort `"@ + text@ + "`; use low, medium, or high"@,
{
}

/// A request's own limit counts, and without one the scout's, if it has any; a probe has a minute,
/// or the scout's limit where that is shorter.
pub proof fn the_closest_limit_counts(own: u128, standing: Option<u128>)
    ensures
        time_limit(Some(own), standing) == Some(own),
        time_limit(None, standing) == standing,
        probe_limit(standing) <= 60_000_000_000,
        standing is None ==> probe_limit(standing) == 60_000_000_000,
        standing matches Some(nanos) ==> probe_limit(standing) <= nanos,
        standing matches Some(nanos) ==> probe_limit(standing) == nanos || probe_limit(standing)
            == 60_000_000_000,
        PROBE_QUERY@ == "Cite the first line of one relevant source or manifest file."@,
        GPT_SCOUT_LABEL@ == "GPT scout via Codex CLI"@,
{
}

/// A configuration that is refused is refused for what it asks for: its backend first, as it is
/// written; then its model and then its effort, without the white space around them. What it asks
/// for is named, and there is no other reason.
pub proof fn a_refusal_has_its_reason(cfg: RepoTracerConfig, error: ConfigError)
    requires
        is_refused(cfg, error),
    ensures
        ({
            let backend = ascii_lowered(cfg.model.backend@);
            let model = trimmed(cfg.model.model@);
            let effort = trimmed(cfg.model.reasoning_effort@);
            let known = backend == "codex"@ || backend == "codex-cli"@;
            let supported = model.len() == 0 || model == "default"@ || model == "account-default"@
                || (model.len() >= 4 && model.take(4) == "gpt-"@);
            &&& error is UnsupportedBackend <==> !known
            &&& error is UnsupportedModel <==> known && !supported
            &&& error is UnsupportedEffort ==> effort != "low"@ && effort != "medium"@ && effort
                != "high"@
            &&& match error {
                ConfigError::UnsupportedBackend(text) => text@ == cfg.model.backend@,
                ConfigError::UnsupportedModel(text) => text@ == model,
                ConfigError::UnsupportedEffort(text) => text@ == effort,
            }
        }),
{
    what_is_supported(
        cfg.model.backend@,
        trimmed(cfg.model.model@),
        trimmed(cfg.model.reasoning_effort@),
    );
}

/// What is set does not depend on the case of the backend, nor on white space around the model and
/// the effort.
pub proof fn white_space_and_case_make_no_difference(a: RepoTracerConfig, b: RepoTracerConfig)
    requires
        ascii_lowered(a.model.backend@) == ascii_lowered(b.model.backend@),
        a.model.executable == b.model.executable,
        trimmed(a.model.model@) == trimmed(b.model.model@),
        trimmed(a.model.reasoning_effort@) == trimmed(b.model.reasoning_effort@),
        a.model.timeout_ms == b.model.timeout_ms,
    ensures
        is_codex(a.model.backend@) == is_codex(b.model.backend@),
        settings_of(a) == settings_of(b),
{
}

} // verus!
