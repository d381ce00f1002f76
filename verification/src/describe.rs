//! The configuration description: installation instructions, the
//! default-settings document with resolved settings substituted into
//! its template, and the serialized settings schema.

use vstd::prelude::*;
use vstd::string::*;
use crate::config::{doc_model, resolve, resolve_spec, DocumentModel, RawDocument, Settings,
    SettingsModel};
use crate::text::{quoted, quoted_spec, replace_first, replace_first_spec};

verus! {

/// The static installation-instructions text.
pub open spec fn installation_instructions_spec() -> Seq<char> {
    "# GitLab Context Server\n\nThis extension runs the GitLab Model Context Protocol server. It needs Node.js and installs the `@modelcontextprotocol/server-gitlab` npm package on demand.\n\n1. Create a GitLab personal access token with the `api` scope.\n2. Put the token into the `gitlab_personal_access_token` setting.\n3. To target a self-hosted instance, set `gitlab_api_url` to its API endpoint.\n"@
}

/// The default-settings template, with a placeholder token and the
/// API-URL line commented out.
pub open spec fn default_settings_template_spec() -> Seq<char> {
    "{\n  // The personal access token for the GitLab API.\n  \"gitlab_personal_access_token\": \"YOUR_GITLAB_TOKEN\"\n  // To target a self-hosted instance, uncomment the line below.\n  // \"gitlab_api_url\": \"https://your-gitlab-instance.com/api/v4\"\n}\n"@
}

/// The serialized schema of the two recognized settings: the required
/// string `gitlab_personal_access_token` and the optional string
/// `gitlab_api_url`.
pub open spec fn settings_schema_spec() -> Seq<char> {
    "{\"$schema\":\"http://json-schema.org/draft-07/schema#\",\"title\":\"GitlabContextServerSettings\",\"type\":\"object\",\"required\":[\"gitlab_personal_access_token\"],\"properties\":{\"gitlab_personal_access_token\":{\"type\":\"string\"},\"gitlab_api_url\":{\"type\":[\"string\",\"null\"]}}}"@
}

/// Placeholder standing in for the access token in the template.
pub open spec fn token_placeholder() -> Seq<char> {
    "\"YOUR_GITLAB_TOKEN\""@
}

/// The commented-out API-URL key in the template.
pub open spec fn api_url_commented() -> Seq<char> {
    "// \"gitlab_api_url\""@
}

/// The API-URL key with the comment marker removed.
pub open spec fn api_url_uncommented() -> Seq<char> {
    "\"gitlab_api_url\""@
}

/// Placeholder standing in for the API URL in the template.
pub open spec fn api_url_placeholder() -> Seq<char> {
    "\"https://your-gitlab-instance.com/api/v4\""@
}

/// Returns the default-settings template document.
pub fn default_settings_template() -> (r: String)
    ensures
        r@ == default_settings_template_spec(),
{
    "{\n  // The personal access token for the GitLab API.\n  \"gitlab_personal_access_token\": \"YOUR_GITLAB_TOKEN\"\n  // To target a self-hosted instance, uncomment the line below.\n  // \"gitlab_api_url\": \"https://your-gitlab-instance.com/api/v4\"\n}\n".to_owned()
}

/// The template with the resolved settings substituted in: the token
/// placeholder replaced by the quoted token, and, when an API URL is
/// set, the API-URL line uncommented and its placeholder replaced by
/// the quoted URL.
pub open spec fn substituted_settings_spec(s: SettingsModel) -> Seq<char> {
    let with_token = replace_first_spec(
        default_settings_template_spec(),
        token_placeholder(),
        quoted_spec(s.access_token),
    );
    match s.api_url {
        Some(u) => replace_first_spec(
            replace_first_spec(with_token, api_url_commented(), api_url_uncommented()),
            api_url_placeholder(),
            quoted_spec(u),
        ),
        None => with_token,
    }
}

/// The default-settings document for a raw configuration: the template
/// with the resolved settings substituted when resolution succeeds, the
/// unmodified template otherwise.
pub open spec fn default_settings_spec(raw: Option<DocumentModel>) -> Seq<char> {
    match resolve_spec(raw) {
        Ok(s) => substituted_settings_spec(s),
        Err(_) => default_settings_template_spec(),
    }
}

/// The configuration description handed back to the host: instructions,
/// the default-settings document, and the serialized settings schema.
#[derive(Debug, Clone, PartialEq, Eq)]
pub struct ConfigurationDescription {
    pub installation_instructions: String,
    pub default_settings_document: String,
    pub settings_schema: String,
}

/// Mathematical model of a [`ConfigurationDescription`].
#[verifier::ext_equal]
pub struct ConfigurationDescriptionModel {
    pub installation_instructions: Seq<char>,
    pub default_settings_document: Seq<char>,
    pub settings_schema: Seq<char>,
}

impl View for ConfigurationDescription {
    type V = ConfigurationDescriptionModel;

    open spec fn view(&self) -> ConfigurationDescriptionModel {
        ConfigurationDescriptionModel {
            installation_instructions: self.installation_instructions@,
            default_settings_document: self.default_settings_document@,
            settings_schema: self.settings_schema@,
        }
    }
}

/// Substitutes validated settings into the template document.
fn substitute_settings(settings: &Settings) -> (r: String)
    ensures
        r@ == substituted_settings_spec(settings@),
{
    let template = default_settings_template();
    let token_quoted = quoted(settings.access_token.as_str());
    let with_token = replace_first(
        template.as_str(),
        "\"YOUR_GITLAB_TOKEN\"",
        token_quoted.as_str(),
    );
    match &settings.api_url {
        Some(u) => {
            let uncommented = replace_first(
                with_token.as_str(),
                "// \"gitlab_api_url\"",
                "\"gitlab_api_url\"",
            );
            let url_quoted = quoted(u.as_str());
            replace_first(
                uncommented.as_str(),
                "\"https://your-gitlab-instance.com/api/v4\"",
                url_quoted.as_str(),
            )
        },
        None => with_token,
    }
}

/// Produces the configuration description. Never fails: when the raw
/// configuration does not resolve, the default-settings document falls
/// back to the unmodified template.
pub fn describe_configuration(raw: &Option<RawDocument>) -> (r: ConfigurationDescription)
    ensures
        r@.installation_instructions == installation_instructions_spec(),
        r@.settings_schema == settings_schema_spec(),
        r@.default_settings_document == default_settings_spec(doc_model(*raw)),
{
    let default_settings_document = match resolve(raw) {
        Ok(settings) => substitute_settings(&settings),
        Err(_) => default_settings_template(),
    };
    ConfigurationDescription {
        installation_instructions:
            "# GitLab Context Server\n\nThis extension runs the GitLab Model Context Protocol server. It needs Node.js and installs the `@modelcontextprotocol/server-gitlab` npm package on demand.\n\n1. Create a GitLab personal access token with the `api` scope.\n2. Put the token into the `gitlab_personal_access_token` setting.\n3. To target a self-hosted instance, set `gitlab_api_url` to its API endpoint.\n".to_owned(),
        default_settings_document,
        settings_schema:
            "{\"$schema\":\"http://json-schema.org/draft-07/schema#\",\"title\":\"GitlabContextServerSettings\",\"type\":\"object\",\"required\":[\"gitlab_personal_access_token\"],\"properties\":{\"gitlab_personal_access_token\":{\"type\":\"string\"},\"gitlab_api_url\":{\"type\":[\"string\",\"null\"]}}}".to_owned(),
    }
}

} // verus!
