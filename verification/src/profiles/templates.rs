//! The `config.toml` templates of the profile switcher.

use vstd::prelude::*;

use crate::paths::AppPaths;
use crate::profiles::models::TemplateKind;
use crate::text::{replace_all, replace_char, replace_char_str, replace_str, same_text};

verus! {

pub const DEFAULT_OPENAI_TEMPLATE: &'static str = "model = \"gpt-5.4\"\nmodel_reasoning_effort = \"xhigh\"\n";

pub const DEFAULT_APIKEY_TEMPLATE: &'static str = "model_provider = {provider_name}\nmodel = \"gpt-5.4\"\nmodel_reasoning_effort = \"xhigh\"\n\ndisable_response_storage = true\n\n[model_providers.{provider_key}]\nname = {provider_name}\nbase_url = {base_url}\nwire_api = \"responses\"\nrequires_openai_auth = true\n";

pub const QUOTED_PROVIDER_NAME_APIKEY_TEMPLATE: &'static str = "model_provider = {provider_name}\nmodel = \"gpt-5.4\"\nmodel_reasoning_effort = \"xhigh\"\n\ndisable_response_storage = true\n\n[model_providers.{provider_name}]\nname = {provider_name}\nbase_url = {base_url}\nwire_api = \"responses\"\nrequires_openai_auth = true\n";

pub const FIXED_PROVIDER_APIKEY_TEMPLATE: &'static str = "model_provider = \"right\"\nmodel = \"gpt-5.4\"\nmodel_reasoning_effort = \"xhigh\"\n\ndisable_response_storage = true\n\n[model_providers.right]\nname = \"right\"\nbase_url = {base_url}\nwire_api = \"responses\"\nrequires_openai_auth = true\n";

/// Reads, writes and resets the two templates.
pub struct TemplateService<'a> {
    pub paths: &'a AppPaths,
}

/// Text with Windows (`\r\n`) and old Mac (`\r`) line endings turned into
/// `\n`.
pub open spec fn line_endings_spec(content: Seq<char>) -> Seq<char> {
    replace_char(replace_all(content, "\r\n"@, "\n"@), '\r', '\n')
}

/// The API-key template as it is served: a stored text that is one of the
/// two earlier defaults is upgraded to the current default (and must be
/// written back, the flag says so); any other text is kept, with its line
/// endings normalised.
pub open spec fn apikey_template_spec(current: Seq<char>) -> (Seq<char>, bool) {
    let normalized = line_endings_spec(current);
    if normalized == line_endings_spec(FIXED_PROVIDER_APIKEY_TEMPLATE@) || normalized
        == line_endings_spec(QUOTED_PROVIDER_NAME_APIKEY_TEMPLATE@) {
        (line_endings_spec(DEFAULT_APIKEY_TEMPLATE@), true)
    } else {
        (normalized, false)
    }
}

pub fn normalize_line_endings(content: &str) -> (out: String)
    ensures
        out@ == line_endings_spec(content@),
{
    proof {
        reveal_strlit("\r\n");
        assert("\r\n"@.len() > 0);
    }
    let unified = replace_str(content, "\r\n", "\n");
    replace_char_str(unified.as_str(), '\r', '\n')
}


impl<'a> TemplateService<'a> {
    pub fn new(paths: &'a AppPaths) -> (out: Self)
        ensures
            out.paths == paths,
    {
        TemplateService { paths }
    }

    pub fn default_openai_template() -> (out: &'static str)
        ensures
            out@ == DEFAULT_OPENAI_TEMPLATE@,
    {
        DEFAULT_OPENAI_TEMPLATE
    }

    pub fn default_apikey_template() -> (out: &'static str)
        ensures
            out@ == DEFAULT_APIKEY_TEMPLATE@,
    {
        DEFAULT_APIKEY_TEMPLATE
    }

    fn quoted_provider_name_apikey_template() -> (out: &'static str)
        ensures
            out@ == QUOTED_PROVIDER_NAME_APIKEY_TEMPLATE@,
    {
        QUOTED_PROVIDER_NAME_APIKEY_TEMPLATE
    }

    fn fixed_provider_apikey_template() -> (out: &'static str)
        ensures
            out@ == FIXED_PROVIDER_APIKEY_TEMPLATE@,
    {
        FIXED_PROVIDER_APIKEY_TEMPLATE
    }

    /// The default template of a kind, which resetting writes.
    pub fn default_template(kind: TemplateKind) -> (out: &'static str)
        ensures
            out@ == match kind {
                TemplateKind::OpenAi => DEFAULT_OPENAI_TEMPLATE@,
                TemplateKind::ApiKey => DEFAULT_APIKEY_TEMPLATE@,
            },
    {
        match kind {
            TemplateKind::OpenAi => Self::default_openai_template(),
            TemplateKind::ApiKey => Self::default_apikey_template(),
        }
    }

    /// The API-key template to serve for the stored text, and whether the
    /// stored text is an earlier default that has to be replaced.
    pub fn upgrade_apikey_template(current: &str) -> (out: (String, bool))
        ensures
            (out.0@, out.1) == apikey_template_spec(current@),
    {
        let normalized = normalize_line_endings(current);
        let fixed = normalize_line_endings(Self::fixed_provider_apikey_template());
        let quoted = normalize_line_endings(Self::quoted_provider_name_apikey_template());
        if same_text(normalized.as_str(), fixed.as_str()) || same_text(
            normalized.as_str(),
            quoted.as_str(),
        ) {
            (normalize_line_endings(Self::default_apikey_template()), true)
        } else {
            (normalized, false)
        }
    }
}

} // verus!
