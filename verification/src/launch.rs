//! Launch-descriptor construction: deciding whether the backing npm
//! package needs an install, and assembling the executable path,
//! argument list and environment mapping for the host runtime.

use vstd::prelude::*;
use vstd::string::*;
use crate::config::{Settings, SettingsModel};

verus! {

/// Environment variable that carries the access token.
pub open spec fn token_env_var() -> Seq<char> {
    "GITLAB_PERSONAL_ACCESS_TOKEN"@
}

/// Environment variable that carries the optional API URL.
pub open spec fn api_url_env_var() -> Seq<char> {
    "GITLAB_API_URL"@
}

/// npm package that implements the server.
pub open spec fn package_name_spec() -> Seq<char> {
    "@modelcontextprotocol/server-gitlab"@
}

/// Path of the installed package's entry script, relative to the
/// working directory.
pub open spec fn server_script_suffix() -> Seq<char> {
    "/node_modules/@modelcontextprotocol/server-gitlab/dist/index.js"@
}

/// Returns the name of the npm package that the descriptor launches.
pub fn package_name() -> (r: String)
    ensures
        r@ == package_name_spec(),
{
    "@modelcontextprotocol/server-gitlab".to_owned()
}

/// Installed-vs-latest state of the backing package, as the package
/// manager reports it; `installed_version` is `None` when nothing is
/// installed.
#[derive(Debug, Clone, PartialEq, Eq)]
pub struct PackageState {
    pub installed_version: Option<String>,
    pub latest_version: String,
}

/// Mathematical model of a [`PackageState`].
pub struct PackageStateModel {
    pub installed_version: Option<Seq<char>>,
    pub latest_version: Seq<char>,
}

impl View for PackageState {
    type V = PackageStateModel;

    open spec fn view(&self) -> PackageStateModel {
        PackageStateModel {
            installed_version: opt_string_model(self.installed_version),
            latest_version: self.latest_version@,
        }
    }
}

/// The model of an optional string.
pub open spec fn opt_string_model(o: Option<String>) -> Option<Seq<char>> {
    match o {
        Some(s) => Some(s@),
        None => None,
    }
}

/// The version to install, if any: the latest version exactly when the
/// installed version differs from it (or nothing is installed).
pub open spec fn install_plan_spec(p: PackageStateModel) -> Option<Seq<char>> {
    if p.installed_version == Some(p.latest_version) {
        None
    } else {
        Some(p.latest_version)
    }
}

/// Decides the check-then-act install step: returns the version to
/// install, or `None` when the package is already at the latest version.
pub fn install_plan(package: &PackageState) -> (r: Option<String>)
    ensures
        opt_string_model(r) == install_plan_spec(package@),
{
    let up_to_date: bool = match &package.installed_version {
        Some(v) => *v == package.latest_version,
        None => false,
    };
    if up_to_date {
        None
    } else {
        Some(package.latest_version.clone())
    }
}

/// Why a launch request failed.
#[derive(Debug, Clone, PartialEq, Eq)]
pub enum LaunchError {
    /// A package-manager version query or install action failed.
    PackageManager { cause: String },
    /// The host runtime's executable path cannot be located.
    RuntimeUnavailable,
}

/// Mathematical model of a [`LaunchError`].
pub enum LaunchErrorModel {
    PackageManager { cause: Seq<char> },
    RuntimeUnavailable,
}

impl View for LaunchError {
    type V = LaunchErrorModel;

    open spec fn view(&self) -> LaunchErrorModel {
        match self {
            LaunchError::PackageManager { cause } => LaunchErrorModel::PackageManager {
                cause: cause@,
            },
            LaunchError::RuntimeUnavailable => LaunchErrorModel::RuntimeUnavailable,
        }
    }
}

/// What the host runtime needs to start the server process.
#[derive(Debug, Clone, PartialEq, Eq)]
pub struct LaunchDescriptor {
    pub executable_path: String,
    pub arguments: Vec<String>,
    pub environment: Vec<(String, String)>,
}

/// Mathematical model of a [`LaunchDescriptor`].
#[verifier::ext_equal]
pub struct LaunchDescriptorModel {
    pub executable_path: Seq<char>,
    pub arguments: Seq<Seq<char>>,
    pub environment: Seq<(Seq<char>, Seq<char>)>,
}

impl View for LaunchDescriptor {
    type V = LaunchDescriptorModel;

    open spec fn view(&self) -> LaunchDescriptorModel {
        LaunchDescriptorModel {
            executable_path: self.executable_path@,
            arguments: self.arguments@.map_values(|a: String| a@),
            environment: self.environment@.map_values(|p: (String, String)| (p.0@, p.1@)),
        }
    }
}

/// The environment mapping of a launch: the token first, then the API
/// URL exactly when one is set.
pub open spec fn environment_spec(s: SettingsModel) -> Seq<(Seq<char>, Seq<char>)> {
    match s.api_url {
        Some(u) => seq![(token_env_var(), s.access_token), (api_url_env_var(), u)],
        None => seq![(token_env_var(), s.access_token)],
    }
}

/// Absolute path of the entry script under `working_dir`.
pub open spec fn server_script_path_spec(working_dir: Seq<char>) -> Seq<char> {
    working_dir + server_script_suffix()
}

/// What `build_launch` returns: the package-manager failure when the
/// ensure-current step failed, `RuntimeUnavailable` when the runtime
/// path is unresolved, and otherwise the fully determined descriptor.
pub open spec fn build_launch_spec(
    s: SettingsModel,
    package_step: Result<(), Seq<char>>,
    runtime_path: Option<Seq<char>>,
    working_dir: Seq<char>,
) -> Result<LaunchDescriptorModel, LaunchErrorModel> {
    match package_step {
        Err(cause) => Err(LaunchErrorModel::PackageManager { cause }),
        Ok(_) => match runtime_path {
            None => Err(LaunchErrorModel::RuntimeUnavailable),
            Some(path) => Ok(LaunchDescriptorModel {
                executable_path: path,
                arguments: seq![server_script_path_spec(working_dir)],
                environment: environment_spec(s),
            }),
        },
    }
}

/// The model of the ensure-current step's outcome.
pub open spec fn step_model(r: Result<(), String>) -> Result<(), Seq<char>> {
    match r {
        Ok(_) => Ok(()),
        Err(cause) => Err(cause@),
    }
}

/// The model of a launch result.
pub open spec fn launch_result_model(
    r: Result<LaunchDescriptor, LaunchError>,
) -> Result<LaunchDescriptorModel, LaunchErrorModel> {
    match r {
        Ok(d) => Ok(d@),
        Err(e) => Err(e@),
    }
}

/// Assembles the launch descriptor from validated settings and the
/// host's answers: the outcome of the ensure-current package step, the
/// runtime executable path if one was located, and the working
/// directory. All-or-nothing: no descriptor accompanies an error.
pub fn build_launch(
    settings: &Settings,
    package_step: &Result<(), String>,
    runtime_path: &Option<String>,
    working_dir: &String,
) -> (r: Result<LaunchDescriptor, LaunchError>)
    ensures
        launch_result_model(r) == build_launch_spec(
            settings@,
            step_model(*package_step),
            opt_string_model(*runtime_path),
            working_dir@,
        ),
{
    match package_step {
        Err(cause) => Err(LaunchError::PackageManager { cause: cause.clone() }),
        Ok(_) => match runtime_path {
            None => Err(LaunchError::RuntimeUnavailable),
            Some(path) => {
                let script = working_dir.clone().concat(
                    "/node_modules/@modelcontextprotocol/server-gitlab/dist/index.js",
                );
                let mut arguments: Vec<String> = Vec::new();
                arguments.push(script);
                let mut environment: Vec<(String, String)> = Vec::new();
                environment.push((
                    "GITLAB_PERSONAL_ACCESS_TOKEN".to_owned(),
                    settings.access_token.clone(),
                ));
                match &settings.api_url {
                    Some(u) => {
                        environment.push(("GITLAB_API_URL".to_owned(), u.clone()));
                    },
                    None => {},
                }
                let d = LaunchDescriptor {
                    executable_path: path.clone(),
                    arguments,
                    environment,
                };
                proof {
                    assert(d@.arguments =~= seq![server_script_path_spec(working_dir@)]);
                    assert(d@.environment =~= environment_spec(settings@));
                }
                Ok(d)
            },
        },
    }
}

/// Law: with no API URL set, the environment mapping holds exactly one
/// entry, the access token.
pub proof fn lemma_environment_token_only(s: SettingsModel)
    requires
        s.api_url is None,
    ensures
        environment_spec(s).len() == 1,
        environment_spec(s)[0] == (token_env_var(), s.access_token),
{
}

/// Law: with an API URL set, the environment mapping holds exactly two
/// entries, in order: the access token, then the URL.
pub proof fn lemma_environment_with_api_url(s: SettingsModel, u: Seq<char>)
    requires
        s.api_url == Some(u),
    ensures
        environment_spec(s).len() == 2,
        environment_spec(s)[0] == (token_env_var(), s.access_token),
        environment_spec(s)[1] == (api_url_env_var(), u),
{
}

/// Law: with the package already at the latest version, no install is
/// planned, and two launches built from identical settings and identical
/// host answers are identical.
pub proof fn lemma_build_launch_idempotent(
    s: SettingsModel,
    p: PackageStateModel,
    runtime_path: Option<Seq<char>>,
    working_dir: Seq<char>,
    r1: Result<LaunchDescriptorModel, LaunchErrorModel>,
    r2: Result<LaunchDescriptorModel, LaunchErrorModel>,
)
    requires
        p.installed_version == Some(p.latest_version),
        r1 == build_launch_spec(s, Ok::<(), Seq<char>>(()), runtime_path, working_dir),
        r2 == build_launch_spec(s, Ok::<(), Seq<char>>(()), runtime_path, working_dir),
    ensures
        install_plan_spec(p) is None,
        r1 == r2,
{
}

} // verus!
