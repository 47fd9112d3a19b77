//! Settings for drafting a changelog with a language model, and what is
//! decided around the request itself.
use crate::text::{
    ascii_lowercase, chars_of, join, joined, lines_of, same_text, same_text_ignoring_ascii_case,
    split_lines, texts, trim, trim_bounds,
};
use vstd::prelude::*;

verus! {

/// The token that an untouched configuration file holds.
pub const TOKEN_PLACEHOLDER: &'static str = "replace_me";

/// A line that opens or closes a block of code in Markdown.
pub const FENCE: &'static str = "```";

/// Who runs the model.
#[derive(Clone, Copy, Debug, PartialEq, Eq, Structural)]
pub enum Provider {
    Gemini,
    OpenAI,
}

/// The settings for the language model.
#[derive(Clone, Debug, PartialEq, Eq)]
pub struct Llm {
    pub enable: bool,
    pub provider: Option<Provider>,
    pub model: Option<String>,
    pub token: String,
    /// With more commits than this the model is not asked, to keep the cost
    /// in bounds.
    pub max_commits: usize,
}

/// Why the settings cannot be used.
#[derive(Clone, Copy, Debug, PartialEq, Eq, Structural)]
pub enum LlmSettingsError {
    TokenMissing,
    ProviderMissing,
}

/// A provider name that is not known.
#[derive(Clone, Debug, PartialEq, Eq)]
pub struct UnknownProvider {
    pub value: String,
}

/// What to do about the changelog.
#[derive(Clone, Copy, Debug, PartialEq, Eq, Structural)]
pub enum ChangelogPlan {
    /// There are too many commits: the template stays as it is.
    KeepTemplate,
    /// The model is asked to fill the template.
    AskModel,
}

/// The provider that `value` names, whatever the case of its letters.
pub open spec fn provider_named(value: Seq<char>) -> Option<Provider> {
    if ascii_lowercase(value) == "gemini"@ {
        Some(Provider::Gemini)
    } else if ascii_lowercase(value) == "openai"@ {
        Some(Provider::OpenAI)
    } else {
        None
    }
}

/// Whether `token` is no token at all: empty, or the placeholder.
pub open spec fn is_missing_token(token: Seq<char>) -> bool {
    token.len() == 0 || token == TOKEN_PLACEHOLDER@
}

/// What is wrong with the settings, if anything: the token is looked at
/// first, then the provider.
pub open spec fn settings_problem(settings: Llm) -> Option<LlmSettingsError> {
    if is_missing_token(settings.token@) {
        Some(LlmSettingsError::TokenMissing)
    } else if settings.provider is None {
        Some(LlmSettingsError::ProviderMissing)
    } else {
        None
    }
}

/// Whether `line` holds a fence and nothing else but white space.
pub open spec fn is_fence_line(line: Seq<char>) -> bool {
    trim(line) == FENCE@
}

/// `raw` without its fence lines, the lines that stay joined by line feeds.
pub open spec fn without_fences(raw: Seq<char>) -> Seq<char> {
    joined(lines_of(raw).filter(|line: Seq<char>| !is_fence_line(line)), seq!['\n'])
}

impl Provider {
    /// The provider that `value` names, whatever the case of its letters.
    pub fn parse(value: &str) -> (r: Result<Provider, UnknownProvider>)
        ensures
            match r {
                Ok(provider) => provider_named(value@) == Some(provider),
                Err(unknown) => provider_named(value@) is None && unknown.value@ == value@,
            },
    {
        proof {
            lemma_lowercase_names();
        }
        if same_text_ignoring_ascii_case(value, "gemini") {
            Ok(Provider::Gemini)
        } else if same_text_ignoring_ascii_case(value, "openai") {
            Ok(Provider::OpenAI)
        } else {
            Err(UnknownProvider { value: value.to_owned() })
        }
    }
}

/// The two provider names are in lower case already.
proof fn lemma_lowercase_names()
    ensures
        ascii_lowercase("gemini"@) == "gemini"@,
        ascii_lowercase("openai"@) == "openai"@,
{
    reveal_strlit("gemini");
    reveal_strlit("openai");
}

impl UnknownProvider {
    /// What to tell the user.
    pub fn message(&self) -> (r: String)
        ensures
            r@ == "Could not parse LLM vendor into any accepted values (got `"@ + self.value@
                + "`)"@,
    {
        let mut text = String::from_str("Could not parse LLM vendor into any accepted values (got `");
        text.append(self.value.as_str());
        text.append("`)");
        text
    }
}

impl LlmSettingsError {
    /// What to tell the user.
    pub fn message(&self) -> (r: &'static str)
        ensures
            r@ == match self {
                LlmSettingsError::TokenMissing => "LLM token missing; Please set required LLM auth token in configuration file or via env var `RELEASE_LLM__TOKEN`"@,
                LlmSettingsError::ProviderMissing => "LLM provider missing. Please provide one via config file or env var `RELEASE_LLM__PROVIDER` (e.g. provider='gemini')"@,
            },
    {
        match self {
            LlmSettingsError::TokenMissing => "LLM token missing; Please set required LLM auth token in configuration file or via env var `RELEASE_LLM__TOKEN`",
            LlmSettingsError::ProviderMissing => "LLM provider missing. Please provide one via config file or env var `RELEASE_LLM__PROVIDER` (e.g. provider='gemini')",
        }
    }
}

/// Checks that the settings hold a token and a provider. Whether the model
/// is enabled at all is not looked at.
pub fn validate_llm_settings(llm_settings: &Llm) -> (r: Result<(), LlmSettingsError>)
    ensures
        match r {
            Ok(_) => settings_problem(*llm_settings) is None,
            Err(e) => settings_problem(*llm_settings) == Some(e),
        },
{
    let token = llm_settings.token.as_str();
    if token.unicode_len() == 0 || same_text(token, TOKEN_PLACEHOLDER) {
        return Err(LlmSettingsError::TokenMissing);
    }
    if llm_settings.provider.is_none() {
        return Err(LlmSettingsError::ProviderMissing);
    }
    Ok(())
}

/// What to do about the changelog of a release with `commit_count` commits:
/// unusable settings are an error; with more commits than the settings allow
/// the template stays as it is; else the model is asked.
pub fn plan_changelog(llm_settings: &Llm, commit_count: usize) -> (r: Result<
    ChangelogPlan,
    LlmSettingsError,
>)
    ensures
        match r {
            Ok(plan) => {
                &&& settings_problem(*llm_settings) is None
                &&& plan == if commit_count > llm_settings.max_commits {
                    ChangelogPlan::KeepTemplate
                } else {
                    ChangelogPlan::AskModel
                }
            },
            Err(e) => settings_problem(*llm_settings) == Some(e),
        },
{
    match validate_llm_settings(llm_settings) {
        Err(e) => Err(e),
        Ok(_) => if commit_count > llm_settings.max_commits {
            Ok(ChangelogPlan::KeepTemplate)
        } else {
            Ok(ChangelogPlan::AskModel)
        },
    }
}

/// Whether `line` holds a fence and nothing else but white space.
pub fn holds_only_fence(line: &str) -> (b: bool)
    ensures
        b == is_fence_line(line@),
{
    let chars = chars_of(line);
    let (start, end) = trim_bounds(&chars);
    proof {
        reveal_strlit("```");
    }
    if end - start != 3 {
        assert(trim(line@).len() != FENCE@.len());
        return false;
    }
    let ghost inner = chars@.subrange(start as int, end as int);
    if chars[start] == '`' && chars[start + 1] == '`' && chars[start + 2] == '`' {
        assert(inner =~= FENCE@);
        true
    } else {
        assert(inner[0] == chars@[start as int]);
        assert(inner[1] == chars@[start + 1]);
        assert(inner[2] == chars@[start + 2]);
        false
    }
}

/// What a model answered, without the lines that only fence it in: a model
/// tends to wrap its answer in a block of code.
pub fn strip_code_fences(raw: &str) -> (r: String)
    ensures
        r@ == without_fences(raw@),
{
    let lines = split_lines(raw);
    let ghost all = texts(lines@);
    let ghost keep = |line: Seq<char>| !is_fence_line(line);
    let mut kept: Vec<String> = Vec::new();
    let mut i: usize = 0;
    proof {
        reveal(Seq::filter);
    }
    while i < lines.len()
        invariant
            i <= lines.len(),
            all == texts(lines@),
            keep == |line: Seq<char>| !is_fence_line(line),
            texts(kept@) == all.take(i as int).filter(keep),
        decreases lines.len() - i,
    {
        proof {
            assert(all.take(i + 1) =~= all.take(i as int).push(all[i as int]));
            all.take(i as int).lemma_filter_push(all[i as int], keep);
        }
        if !holds_only_fence(lines[i].as_str()) {
            kept.push(lines[i].clone());
        }
        i += 1;
    }
    proof {
        assert(all.take(lines.len() as int) =~= all);
        reveal_strlit("\n");
        assert("\n"@ =~= seq!['\n']);
    }
    join(&kept, "\n")
}

} // verus!
