//! The configuration of the tool, and how command-line flags override what
//! files and environment gave.
//!
//! Precedence, lowest first: configuration files, environment variables,
//! command-line flags.
use crate::llm::{provider_named, Llm, Provider, UnknownProvider};
use crate::text::{ascii_lowercase, same_text_ignoring_ascii_case};
use vstd::prelude::*;

verus! {

/// How the tool writes to the terminal.
#[derive(Clone, Copy, Debug, PartialEq, Eq, Structural)]
pub enum OutputFormat {
    /// With a spinner and progress bars.
    Pretty,
    Plain,
    Silent,
    Json,
}

/// What is needed to talk to GitHub.
#[derive(Clone, Debug, PartialEq, Eq)]
pub struct Github {
    pub token: String,
}

/// The whole configuration.
#[derive(Clone, Debug, PartialEq, Eq)]
pub struct CliConfig {
    /// Whether to write debug output.
    pub debug: bool,
    pub output_format: OutputFormat,
    pub llm: Llm,
    pub github: Github,
}

/// What the command line says of the configuration. `None` leaves a setting
/// as it is.
#[derive(Clone, Debug, PartialEq, Eq)]
pub struct Overrides {
    pub use_llm: Option<bool>,
    pub llm_provider: Option<String>,
    pub llm_model: Option<String>,
    pub output_format: Option<OutputFormat>,
    /// Debug output is a matter of the command line alone.
    pub debug: bool,
}

/// The format that `name` names, whatever the case of its letters.
pub open spec fn format_named(name: Seq<char>) -> Option<OutputFormat> {
    let lower = ascii_lowercase(name);
    if lower == "pretty"@ {
        Some(OutputFormat::Pretty)
    } else if lower == "plain"@ {
        Some(OutputFormat::Plain)
    } else if lower == "silent"@ {
        Some(OutputFormat::Silent)
    } else if lower == "json"@ {
        Some(OutputFormat::Json)
    } else {
        None
    }
}

/// The four format names are in lower case already.
proof fn lemma_lowercase_formats()
    ensures
        ascii_lowercase("pretty"@) == "pretty"@,
        ascii_lowercase("plain"@) == "plain"@,
        ascii_lowercase("silent"@) == "silent"@,
        ascii_lowercase("json"@) == "json"@,
{
    reveal_strlit("pretty");
    reveal_strlit("plain");
    reveal_strlit("silent");
    reveal_strlit("json");
}

impl OutputFormat {
    /// The format that `name` names, whatever the case of its letters.
    pub fn parse(name: &str) -> (r: Option<OutputFormat>)
        ensures
            r == format_named(name@),
    {
        proof {
            lemma_lowercase_formats();
        }
        if same_text_ignoring_ascii_case(name, "pretty") {
            Some(OutputFormat::Pretty)
        } else if same_text_ignoring_ascii_case(name, "plain") {
            Some(OutputFormat::Plain)
        } else if same_text_ignoring_ascii_case(name, "silent") {
            Some(OutputFormat::Silent)
        } else if same_text_ignoring_ascii_case(name, "json") {
            Some(OutputFormat::Json)
        } else {
            None
        }
    }
}

impl Default for OutputFormat {
    fn default() -> (r: OutputFormat)
        ensures
            r == OutputFormat::Pretty,
    {
        OutputFormat::Pretty
    }
}

/// The view of an optional text.
pub open spec fn text_of(text: Option<String>) -> Option<Seq<char>> {
    match text {
        Some(t) => Some(t@),
        None => None,
    }
}

/// `after` is `before` with the overrides applied: each setting that the
/// command line names takes its value from there, debug output always does,
/// and all else stays.
pub open spec fn overridden(before: CliConfig, overrides: Overrides, after: CliConfig) -> bool {
    &&& after.debug == overrides.debug
    &&& after.output_format == match overrides.output_format {
        Some(format) => format,
        None => before.output_format,
    }
    &&& after.llm.enable == match overrides.use_llm {
        Some(enable) => enable,
        None => before.llm.enable,
    }
    &&& after.llm.provider == match overrides.llm_provider {
        Some(name) => provider_named(name@),
        None => before.llm.provider,
    }
    &&& text_of(after.llm.model) == match overrides.llm_model {
        Some(model) => Some(model@),
        None => text_of(before.llm.model),
    }
    &&& after.llm.token@ == before.llm.token@
    &&& after.llm.max_commits == before.llm.max_commits
    &&& after.github.token@ == before.github.token@
}

/// The configuration with the command-line flags laid over it. Fails only
/// where the command line names a provider that is not known.
pub fn apply_overrides(conf: CliConfig, overrides: &Overrides) -> (r: Result<
    CliConfig,
    UnknownProvider,
>)
    ensures
        match r {
            Ok(after) => {
                &&& overridden(conf, *overrides, after)
                &&& overrides.llm_provider matches Some(name) ==> provider_named(name@) is Some
            },
            Err(unknown) => {
                &&& overrides.llm_provider matches Some(name)
                &&& provider_named(name@) is None
                &&& unknown.value@ == name@
            },
        },
{
    let mut after = conf;
    match overrides.use_llm {
        Some(enable) => {
            after.llm.enable = enable;
        },
        None => {},
    }
    match &overrides.llm_provider {
        Some(name) => match Provider::parse(name.as_str()) {
            Ok(provider) => {
                after.llm.provider = Some(provider);
            },
            Err(unknown) => {
                return Err(unknown);
            },
        },
        None => {},
    }
    match &overrides.llm_model {
        Some(model) => {
            after.llm.model = Some(model.clone());
        },
        None => {},
    }
    match overrides.output_format {
        Some(format) => {
            after.output_format = format;
        },
        None => {},
    }
    after.debug = overrides.debug;
    Ok(after)
}

} // verus!
