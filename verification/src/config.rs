//! Settings resolution: decoding the raw, untyped configuration section
//! into validated [`Settings`], or a descriptive [`ConfigError`].

use vstd::prelude::*;
use vstd::string::*;

verus! {

/// A top-level value of the raw configuration section, as far as the
/// resolver reads it: strings are decoded, `null` stands for an optional
/// field left unset, and every other document shape only fails type
/// decoding.
#[derive(Debug, Clone, PartialEq, Eq)]
pub enum RawValue {
    Null,
    Text(String),
    Other,
}

/// Mathematical model of a [`RawValue`].
pub enum ValueModel {
    Null,
    Text(Seq<char>),
    Other,
}

impl View for RawValue {
    type V = ValueModel;

    open spec fn view(&self) -> ValueModel {
        match self {
            RawValue::Null => ValueModel::Null,
            RawValue::Text(s) => ValueModel::Text(s@),
            RawValue::Other => ValueModel::Other,
        }
    }
}

/// The raw configuration section handed over by the host: an object of
/// named top-level fields, or a document of some other shape.
#[derive(Debug, Clone, PartialEq, Eq)]
pub enum RawDocument {
    Object(Vec<(String, RawValue)>),
    NonObject,
}

/// Mathematical model of a [`RawDocument`].
pub enum DocumentModel {
    Object(Seq<(Seq<char>, ValueModel)>),
    NonObject,
}

/// The model of an object's field list.
pub open spec fn fields_model(fields: Seq<(String, RawValue)>) -> Seq<(Seq<char>, ValueModel)> {
    fields.map_values(|p: (String, RawValue)| (p.0@, p.1@))
}

impl View for RawDocument {
    type V = DocumentModel;

    open spec fn view(&self) -> DocumentModel {
        match self {
            RawDocument::Object(fields) => DocumentModel::Object(fields_model(fields@)),
            RawDocument::NonObject => DocumentModel::NonObject,
        }
    }
}

/// The model of the optional raw configuration section.
pub open spec fn doc_model(raw: Option<RawDocument>) -> Option<DocumentModel> {
    match raw {
        Some(d) => Some(d@),
        None => None,
    }
}

/// Validated settings: the required access token and the optional
/// API URL of a self-hosted instance.
#[derive(Debug, Clone, PartialEq, Eq)]
pub struct Settings {
    pub access_token: String,
    pub api_url: Option<String>,
}

/// Mathematical model of [`Settings`].
#[verifier::ext_equal]
pub struct SettingsModel {
    pub access_token: Seq<char>,
    pub api_url: Option<Seq<char>>,
}

impl View for Settings {
    type V = SettingsModel;

    open spec fn view(&self) -> SettingsModel {
        SettingsModel {
            access_token: self.access_token@,
            api_url: match self.api_url {
                Some(u) => Some(u@),
                None => None,
            },
        }
    }
}

/// Why the raw configuration failed to resolve.
#[derive(Debug, Clone, PartialEq, Eq)]
pub enum ConfigError {
    /// No configuration section exists for this extension.
    Missing { field: String },
    /// A recognized field is absent where required, or of the wrong type.
    Invalid { field: String, reason: String },
}

/// Mathematical model of a [`ConfigError`].
pub enum ConfigErrorModel {
    Missing { field: Seq<char> },
    Invalid { field: Seq<char>, reason: Seq<char> },
}

impl View for ConfigError {
    type V = ConfigErrorModel;

    open spec fn view(&self) -> ConfigErrorModel {
        match self {
            ConfigError::Missing { field } => ConfigErrorModel::Missing { field: field@ },
            ConfigError::Invalid { field, reason } => ConfigErrorModel::Invalid {
                field: field@,
                reason: reason@,
            },
        }
    }
}

/// The human-readable description of a configuration error.
pub open spec fn config_error_message_spec(e: ConfigErrorModel) -> Seq<char> {
    match e {
        ConfigErrorModel::Missing { field } => "missing `"@ + field + "` setting"@,
        ConfigErrorModel::Invalid { field, reason } => "invalid `"@ + field + "` setting: "@
            + reason,
    }
}

impl ConfigError {
    /// Describes the error, as surfaced to the host.
    pub fn message(&self) -> (r: String)
        ensures
            r@ == config_error_message_spec(self@),
    {
        match self {
            ConfigError::Missing { field } => "missing `".to_owned().concat(field.as_str())
                .concat("` setting"),
            ConfigError::Invalid { field, reason } => "invalid `".to_owned().concat(
                field.as_str(),
            ).concat("` setting: ").concat(reason.as_str()),
        }
    }
}

/// Configuration key of the required access token.
pub open spec fn token_key() -> Seq<char> {
    "gitlab_personal_access_token"@
}

/// Configuration key of the optional API URL.
pub open spec fn api_url_key() -> Seq<char> {
    "gitlab_api_url"@
}

/// Reason reported when the configuration section is not an object.
pub open spec fn not_an_object_reason() -> Seq<char> {
    "expected an object of settings"@
}

/// Reason reported when a required field is absent.
pub open spec fn absent_field_reason() -> Seq<char> {
    "required field is absent"@
}

/// Reason reported when a field is present with a non-string value.
pub open spec fn not_a_string_reason() -> Seq<char> {
    "expected a string"@
}

/// The value of the first field named `key` at or after position `i`.
pub open spec fn lookup_from(
    fields: Seq<(Seq<char>, ValueModel)>,
    key: Seq<char>,
    i: int,
) -> Option<ValueModel>
    decreases fields.len() - i + 1,
{
    if i < 0 || i >= fields.len() {
        None
    } else if fields[i].0 == key {
        Some(fields[i].1)
    } else {
        lookup_from(fields, key, i + 1)
    }
}

/// The value of the first field named `key`, if any.
pub open spec fn lookup_spec(
    fields: Seq<(Seq<char>, ValueModel)>,
    key: Seq<char>,
) -> Option<ValueModel> {
    lookup_from(fields, key, 0)
}

/// Finds the first field named `key` in an object's field list.
fn lookup<'a>(fields: &'a Vec<(String, RawValue)>, key: &String) -> (r: Option<&'a RawValue>)
    ensures
        match r {
            Some(v) => lookup_spec(fields_model(fields@), key@) == Some(v@),
            None => lookup_spec(fields_model(fields@), key@) is None,
        },
{
    let ghost fm = fields_model(fields@);
    let mut i: usize = 0;
    while i < fields.len()
        invariant
            i <= fields.len(),
            fm == fields_model(fields@),
            fm.len() == fields@.len(),
            lookup_from(fm, key@, 0) == lookup_from(fm, key@, i as int),
        decreases fields.len() - i,
    {
        proof {
            assert(fm[i as int] == (fields@[i as int].0@, fields@[i as int].1@));
        }
        if fields[i].0 == *key {
            proof {
                assert(lookup_from(fm, key@, i as int) == Some(fm[i as int].1));
            }
            return Some(&fields[i].1);
        }
        proof {
            assert(lookup_from(fm, key@, i as int) == lookup_from(fm, key@, i + 1));
        }
        i += 1;
    }
    proof {
        assert(lookup_from(fm, key@, i as int) is None);
    }
    None
}

/// How `resolve` reads the optional API URL once the token is in hand:
/// an absent or `null` field is no URL, a string is the URL, anything
/// else fails type decoding.
pub open spec fn resolve_api_url_spec(
    fields: Seq<(Seq<char>, ValueModel)>,
    token: Seq<char>,
) -> Result<SettingsModel, ConfigErrorModel> {
    match lookup_spec(fields, api_url_key()) {
        None => Ok(SettingsModel { access_token: token, api_url: None }),
        Some(ValueModel::Null) => Ok(SettingsModel { access_token: token, api_url: None }),
        Some(ValueModel::Text(u)) => Ok(SettingsModel { access_token: token, api_url: Some(u) }),
        Some(ValueModel::Other) => Err(ConfigErrorModel::Invalid {
            field: api_url_key(),
            reason: not_a_string_reason(),
        }),
    }
}

/// What `resolve` returns for each raw configuration: no section at all
/// is the `Missing` error; a section of the wrong shape, an absent or
/// non-string token, or a non-string API URL is an `Invalid` error;
/// everything else yields the validated settings.
pub open spec fn resolve_spec(
    raw: Option<DocumentModel>,
) -> Result<SettingsModel, ConfigErrorModel> {
    match raw {
        None => Err(ConfigErrorModel::Missing { field: token_key() }),
        Some(DocumentModel::NonObject) => Err(ConfigErrorModel::Invalid {
            field: token_key(),
            reason: not_an_object_reason(),
        }),
        Some(DocumentModel::Object(fields)) => match lookup_spec(fields, token_key()) {
            None => Err(ConfigErrorModel::Invalid {
                field: token_key(),
                reason: absent_field_reason(),
            }),
            Some(ValueModel::Text(token)) => resolve_api_url_spec(fields, token),
            Some(_) => Err(ConfigErrorModel::Invalid {
                field: token_key(),
                reason: not_a_string_reason(),
            }),
        },
    }
}

/// The model of a resolution result.
pub open spec fn resolve_result_model(
    r: Result<Settings, ConfigError>,
) -> Result<SettingsModel, ConfigErrorModel> {
    match r {
        Ok(s) => Ok(s@),
        Err(e) => Err(e@),
    }
}

/// Decodes the raw configuration section into validated settings, or
/// reports exactly why it cannot be decoded.
pub fn resolve(raw: &Option<RawDocument>) -> (r: Result<Settings, ConfigError>)
    ensures
        resolve_result_model(r) == resolve_spec(doc_model(*raw)),
{
    match raw {
        None => Err(ConfigError::Missing { field: "gitlab_personal_access_token".to_owned() }),
        Some(RawDocument::NonObject) => Err(ConfigError::Invalid {
            field: "gitlab_personal_access_token".to_owned(),
            reason: "expected an object of settings".to_owned(),
        }),
        Some(RawDocument::Object(fields)) => {
            let token_name = "gitlab_personal_access_token".to_owned();
            match lookup(fields, &token_name) {
                None => Err(ConfigError::Invalid {
                    field: token_name,
                    reason: "required field is absent".to_owned(),
                }),
                Some(RawValue::Text(token)) => {
                    let token = token.clone();
                    let url_name = "gitlab_api_url".to_owned();
                    match lookup(fields, &url_name) {
                        None => Ok(Settings { access_token: token, api_url: None }),
                        Some(RawValue::Null) => Ok(Settings { access_token: token, api_url: None }),
                        Some(RawValue::Text(u)) => Ok(Settings {
                            access_token: token,
                            api_url: Some(u.clone()),
                        }),
                        Some(RawValue::Other) => Err(ConfigError::Invalid {
                            field: url_name,
                            reason: "expected a string".to_owned(),
                        }),
                    }
                },
                Some(_) => Err(ConfigError::Invalid {
                    field: token_name,
                    reason: "expected a string".to_owned(),
                }),
            }
        },
    }
}

/// Law: a raw configuration with no settings section resolves to the
/// `Missing` error naming the access-token key.
pub proof fn lemma_resolve_missing_section()
    ensures
        resolve_spec(None) == Err::<SettingsModel, ConfigErrorModel>(ConfigErrorModel::Missing {
            field: token_key(),
        }),
{
}

/// Law: a raw configuration whose access token is present but not a
/// string resolves to the `Invalid` error on the access-token key.
pub proof fn lemma_resolve_non_string_token(fields: Seq<(Seq<char>, ValueModel)>)
    requires
        lookup_spec(fields, token_key()) matches Some(v) && !(v is Text),
    ensures
        resolve_spec(Some(DocumentModel::Object(fields))) == Err::<
            SettingsModel,
            ConfigErrorModel,
        >(ConfigErrorModel::Invalid { field: token_key(), reason: not_a_string_reason() }),
{
}

} // verus!
