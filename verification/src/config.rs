//! The configuration of a bot, and how it is put together from the
//! variables of the environment.

use crate::registry::ModulesConfig;
use crate::text::{split, split_text};
use vstd::prelude::*;
use vstd::string::StringExecFns;

verus! {

/// Where modules are looked for when the environment names no search path.
pub const DEFAULT_MODULES_PATH: &'static str = "./modules/target/wasm32-unknown-unknown/release";

/// What separates the search paths in the environment.
pub const PATHS_SEPARATOR: char = ',';

/// The configuration to run a bot with.
pub struct BotConfig {
    /// The homeserver the bot connects to.
    pub home_server: Option<String>,
    /// The user id of the bot on the homeserver.
    pub user_id: String,
    /// The password to log in with.
    pub password: Option<String>,
    /// An access token, to take over a login that was made by other means.
    pub access_token: Option<String>,
    /// The device id; needed with an access token, unless it is stored.
    pub device_id: Option<String>,
    /// Where the session's data is stored.
    pub matrix_store_path: String,
    /// Where the bot's own database is stored.
    pub redb_path: String,
    /// The user id of the administrator.
    pub admin_user_id: String,
    /// The search paths that modules are loaded from.
    pub modules_paths: Vec<String>,
    /// The per-module configuration.
    pub modules_config: Option<ModulesConfig>,
}

/// The variables of the environment that a configuration is made of, each
/// with its value if it is set.
pub struct EnvVars {
    /// `HOMESERVER`
    pub home_server: Option<String>,
    /// `BOT_USER_ID`
    pub user_id: Option<String>,
    /// `BOT_PWD`
    pub password: Option<String>,
    /// `MATRIX_STORE_PATH`
    pub matrix_store_path: Option<String>,
    /// `REDB_PATH`
    pub redb_path: Option<String>,
    /// `ADMIN_USER_ID`
    pub admin_user_id: Option<String>,
    /// `MODULES_PATHS`
    pub modules_paths: Option<String>,
}

/// Why the environment gives no configuration.
#[derive(Clone, Debug, PartialEq, Eq)]
pub enum ConfigError {
    MissingHomeServer,
    MissingUserId,
    MissingPassword,
    MissingStorePath,
    MissingRedbPath,
    MissingAdminUserId,
    /// The administrator's user id is not a user id.
    InvalidAdminUserId,
    /// The search path `path` does not exist.
    InvalidModulePath { path: String },
}

/// The mathematical value of a `ConfigError`.
pub enum ConfigErrorView {
    MissingHomeServer,
    MissingUserId,
    MissingPassword,
    MissingStorePath,
    MissingRedbPath,
    MissingAdminUserId,
    InvalidAdminUserId,
    InvalidModulePath { path: Seq<char> },
}

impl View for ConfigError {
    type V = ConfigErrorView;

    open spec fn view(&self) -> ConfigErrorView {
        match self {
            ConfigError::MissingHomeServer => ConfigErrorView::MissingHomeServer,
            ConfigError::MissingUserId => ConfigErrorView::MissingUserId,
            ConfigError::MissingPassword => ConfigErrorView::MissingPassword,
            ConfigError::MissingStorePath => ConfigErrorView::MissingStorePath,
            ConfigError::MissingRedbPath => ConfigErrorView::MissingRedbPath,
            ConfigError::MissingAdminUserId => ConfigErrorView::MissingAdminUserId,
            ConfigError::InvalidAdminUserId => ConfigErrorView::InvalidAdminUserId,
            ConfigError::InvalidModulePath { path } => ConfigErrorView::InvalidModulePath {
                path: path@,
            },
        }
    }
}

impl ConfigError {
    /// The text of the error.
    pub open spec fn text(self) -> Seq<char> {
        match self@ {
            ConfigErrorView::MissingHomeServer => "missing HOMESERVER variable"@,
            ConfigErrorView::MissingUserId => "missing bot user id in BOT_USER_ID"@,
            ConfigErrorView::MissingPassword => "missing bot user id in BOT_PWD"@,
            ConfigErrorView::MissingStorePath => "missing MATRIX_STORE_PATH"@,
            ConfigErrorView::MissingRedbPath => "missing REDB_PATH"@,
            ConfigErrorView::MissingAdminUserId => "missing admin user id in ADMIN_USER_ID"@,
            ConfigErrorView::InvalidAdminUserId => "impossible to parse admin user id"@,
            ConfigErrorView::InvalidModulePath { path } => "a module path isn't valid: "@ + path
                + " doesn't reference a valid path"@,
        }
    }

    /// Computes `text`.
    pub fn message(&self) -> (m: String)
        ensures
            m@ == self.text(),
    {
        match self {
            ConfigError::MissingHomeServer => "missing HOMESERVER variable".to_owned(),
            ConfigError::MissingUserId => "missing bot user id in BOT_USER_ID".to_owned(),
            ConfigError::MissingPassword => "missing bot user id in BOT_PWD".to_owned(),
            ConfigError::MissingStorePath => "missing MATRIX_STORE_PATH".to_owned(),
            ConfigError::MissingRedbPath => "missing REDB_PATH".to_owned(),
            ConfigError::MissingAdminUserId => "missing admin user id in ADMIN_USER_ID".to_owned(),
            ConfigError::InvalidAdminUserId => "impossible to parse admin user id".to_owned(),
            ConfigError::InvalidModulePath { path } => "a module path isn't valid: ".to_owned().concat(
                path.as_str(),
            ).concat(" doesn't reference a valid path"),
        }
    }
}

/// The search paths that the value `listed` of `MODULES_PATHS` names: its
/// parts between commas, or the default path if the variable is not set.
pub open spec fn search_paths(listed: Option<Seq<char>>) -> Seq<Seq<char>> {
    match listed {
        Some(list) => split(list, PATHS_SEPARATOR),
        None => split(DEFAULT_MODULES_PATH@, PATHS_SEPARATOR),
    }
}

/// Computes `search_paths`.
pub fn module_paths(listed: &Option<String>) -> (paths: Vec<String>)
    ensures
        paths.deep_view() == search_paths(listed.deep_view()),
{
    match listed {
        Some(list) => split_text(list.as_str(), PATHS_SEPARATOR),
        None => split_text(DEFAULT_MODULES_PATH, PATHS_SEPARATOR),
    }
}

/// Whether the path at index `i` exists. `present` says of each path
/// whether it exists; a path that it does not speak of counts as missing.
pub open spec fn is_present(present: Seq<bool>, i: int) -> bool {
    0 <= i < present.len() && present[i]
}

/// The index of the first of `n` search paths that does not exist, or `n`
/// if all exist.
pub open spec fn first_missing(present: Seq<bool>, n: int) -> int
    decreases n,
{
    if n <= 0 {
        0
    } else {
        let before = first_missing(present, n - 1);
        if before < n - 1 {
            before
        } else if is_present(present, n - 1) {
            n
        } else {
            n - 1
        }
    }
}

/// The configuration that the environment gives, or the first reason why
/// it gives none: a variable that is not set, in the order of the fields
/// of `EnvVars`; an administrator's user id that is none; a search path
/// that does not exist.
pub open spec fn env_config(
    home_server: Option<Seq<char>>,
    user_id: Option<Seq<char>>,
    password: Option<Seq<char>>,
    matrix_store_path: Option<Seq<char>>,
    redb_path: Option<Seq<char>>,
    admin_user_id: Option<Seq<char>>,
    modules_paths: Option<Seq<char>>,
    admin_is_user_id: bool,
    present: Seq<bool>,
) -> Option<ConfigErrorView> {
    let paths = search_paths(modules_paths);
    if home_server is None {
        Some(ConfigErrorView::MissingHomeServer)
    } else if user_id is None {
        Some(ConfigErrorView::MissingUserId)
    } else if password is None {
        Some(ConfigErrorView::MissingPassword)
    } else if matrix_store_path is None {
        Some(ConfigErrorView::MissingStorePath)
    } else if redb_path is None {
        Some(ConfigErrorView::MissingRedbPath)
    } else if admin_user_id is None {
        Some(ConfigErrorView::MissingAdminUserId)
    } else if !admin_is_user_id {
        Some(ConfigErrorView::InvalidAdminUserId)
    } else if first_missing(present, paths.len() as int) < paths.len() {
        Some(
            ConfigErrorView::InvalidModulePath {
                path: paths[first_missing(present, paths.len() as int)],
            },
        )
    } else {
        None
    }
}

impl BotConfig {
    /// The configuration that the variables `vars` of the environment give.
    ///
    /// `admin_is_user_id` says whether the value of `ADMIN_USER_ID` is a
    /// user id, and `present` says of each of `module_paths` of
    /// `MODULES_PATHS`, in order, whether it exists.
    ///
    /// The configuration logs in with the password, has no access token, no
    /// device id and no per-module configuration, and its search paths are
    /// those that `MODULES_PATHS` names.
    #[verifier::loop_isolation(false)]
    pub fn from_env(vars: EnvVars, admin_is_user_id: bool, present: &Vec<bool>) -> (config: Result<
        BotConfig,
        ConfigError,
    >)
        ensures
            match config {
                Ok(c) => {
                    &&& env_config(
                        vars.home_server.deep_view(),
                        vars.user_id.deep_view(),
                        vars.password.deep_view(),
                        vars.matrix_store_path.deep_view(),
                        vars.redb_path.deep_view(),
                        vars.admin_user_id.deep_view(),
                        vars.modules_paths.deep_view(),
                        admin_is_user_id,
                        present@,
                    ) is None
                    &&& c.home_server.deep_view() == vars.home_server.deep_view()
                    &&& Some(c.user_id@) == vars.user_id.deep_view()
                    &&& c.password.deep_view() == vars.password.deep_view()
                    &&& c.access_token is None
                    &&& c.device_id is None
                    &&& Some(c.matrix_store_path@) == vars.matrix_store_path.deep_view()
                    &&& Some(c.redb_path@) == vars.redb_path.deep_view()
                    &&& Some(c.admin_user_id@) == vars.admin_user_id.deep_view()
                    &&& c.modules_paths.deep_view() == search_paths(vars.modules_paths.deep_view())
                    &&& c.modules_config is None
                },
                Err(e) => env_config(
                    vars.home_server.deep_view(),
                    vars.user_id.deep_view(),
                    vars.password.deep_view(),
                    vars.matrix_store_path.deep_view(),
                    vars.redb_path.deep_view(),
                    vars.admin_user_id.deep_view(),
                    vars.modules_paths.deep_view(),
                    admin_is_user_id,
                    present@,
                ) == Some(e@),
            },
    {
        let EnvVars {
            home_server,
            user_id,
            password,
            matrix_store_path,
            redb_path,
            admin_user_id,
            modules_paths,
        } = vars;
        let home_server = match home_server {
            Some(v) => v,
            None => return Err(ConfigError::MissingHomeServer),
        };
        let user_id = match user_id {
            Some(v) => v,
            None => return Err(ConfigError::MissingUserId),
        };
        let password = match password {
            Some(v) => v,
            None => return Err(ConfigError::MissingPassword),
        };
        let matrix_store_path = match matrix_store_path {
            Some(v) => v,
            None => return Err(ConfigError::MissingStorePath),
        };
        let redb_path = match redb_path {
            Some(v) => v,
            None => return Err(ConfigError::MissingRedbPath),
        };
        let admin_user_id = match admin_user_id {
            Some(v) => v,
            None => return Err(ConfigError::MissingAdminUserId),
        };
        if !admin_is_user_id {
            return Err(ConfigError::InvalidAdminUserId);
        }
        let paths = module_paths(&modules_paths);
        let mut i: usize = 0;
        while i < paths.len()
            invariant
                i <= paths.len(),
                first_missing(present@, i as int) == i,
            decreases paths.len() - i,
        {
            if i >= present.len() || !present[i] {
                proof {
                    lemma_first_missing_stays(present@, i as int, paths.len() as int);
                }
                return Err(ConfigError::InvalidModulePath { path: paths[i].clone() });
            }
            i += 1;
        }
        Ok(
            BotConfig {
                home_server: Some(home_server),
                user_id,
                password: Some(password),
                access_token: None,
                device_id: None,
                matrix_store_path,
                redb_path,
                admin_user_id,
                modules_paths: paths,
                modules_config: None,
            },
        )
    }
}

/// `first_missing` returns the least index of a path that does not exist.
pub proof fn lemma_first_missing(present: Seq<bool>, n: int)
    requires
        0 <= n,
    ensures
        0 <= first_missing(present, n) <= n,
        forall|j: int| 0 <= j < first_missing(present, n) ==> is_present(present, j),
        first_missing(present, n) < n ==> !is_present(present, first_missing(present, n)),
    decreases n,
{
    if n > 0 {
        lemma_first_missing(present, n - 1);
    }
}

/// A path that is missing, with none missing before it, is the first that
/// is missing among any number of paths behind it.
pub proof fn lemma_first_missing_stays(present: Seq<bool>, i: int, n: int)
    requires
        0 <= i < n,
        first_missing(present, i) == i,
        !is_present(present, i),
    ensures
        first_missing(present, n) == i,
    decreases n - i,
{
    if n > i + 1 {
        lemma_first_missing_stays(present, i, n - 1);
    }
}

} // verus!
