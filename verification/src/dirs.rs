//! Where the configuration file lives.
//!
//! The directory comes from the platform's conventions for per-user
//! configuration, which the `directories` crate knows; the file in it is
//! always `config.toml`.

use directories::ProjectDirs;
use std::path::PathBuf;
use vstd::prelude::*;
use vstd::string::StringExecFns;

verus! {

/// The reverse domain name of the application, without the organization or
/// the application's own name. Empty: none is used.
pub const QUALIFIER: &'static str = "";

/// The organization that the application belongs to. Empty: none is used.
pub const ORGANIZATION: &'static str = "";

/// The application's own name.
pub const APPLICATION: &'static str = "bin-clap-directories";

/// The configuration file's name inside the configuration directory.
pub const CONFIG_FILE_NAME: &'static str = "config.toml";

/// `directories::ProjectDirs`, the set of a project's directories. Opaque
/// here: it is only handed from `project_dirs` to `config_dir`.
#[verifier::external_type_specification]
#[verifier::external_body]
pub struct ExProjectDirs(ProjectDirs);

/// `std::path::PathBuf`. Opaque here: a path is carried from where it was
/// resolved to where the file is opened, and nothing is read from it.
#[verifier::external_type_specification]
#[verifier::external_body]
pub struct ExPathBuf(PathBuf);

/// The place of the configuration file: a directory and a file name in it.
#[derive(Debug, PartialEq, Eq)]
pub struct ConfigFile {
    pub dir: PathBuf,
    pub name: String,
}

/// A `ConfigFile` with its name as a sequence of characters.
pub struct ConfigFileView {
    pub dir: PathBuf,
    pub name: Seq<char>,
}

impl View for ConfigFile {
    type V = ConfigFileView;

    open spec fn view(&self) -> ConfigFileView {
        ConfigFileView { dir: self.dir, name: self.name@ }
    }
}

impl DeepView for ConfigFile {
    type V = ConfigFileView;

    open spec fn deep_view(&self) -> ConfigFileView {
        self@
    }
}

/// The place of the configuration file for a resolved directory, if there is
/// one: `config.toml` in that directory.
pub open spec fn located(dir: Option<PathBuf>) -> Option<ConfigFileView> {
    match dir {
        Some(dir) => Some(ConfigFileView { dir, name: CONFIG_FILE_NAME@ }),
        None => None,
    }
}

/// A place is found exactly where a directory was resolved; it lies in that
/// directory, and its file name is the same whatever the directory.
pub proof fn lemma_located(dir: Option<PathBuf>)
    ensures
        located(dir) is Some <==> dir is Some,
        located(dir) matches Some(file) ==> dir == Some(file.dir) && file.name
            == CONFIG_FILE_NAME@,
{
}

/// Calls `directories::ProjectDirs::from`. Trusted, and nothing is claimed of
/// the result: it is `None` where the system names no home directory, and
/// else follows the platform's conventions and the user's environment.
#[verifier::external_body]
fn project_dirs(qualifier: &str, organization: &str, application: &str) -> Option<ProjectDirs> {
    ProjectDirs::from(qualifier, organization, application)
}

/// Calls `directories::ProjectDirs::config_dir` and owns the path it lends.
/// Trusted, and nothing is claimed of the result.
#[verifier::external_body]
fn config_dir(dirs: &ProjectDirs) -> PathBuf {
    dirs.config_dir().to_path_buf()
}

/// The path that `std::path::Path::join` gives for a directory and a name
/// in it.
pub uninterp spec fn joined(dir: PathBuf, name: Seq<char>) -> PathBuf;

/// Calls `std::path::Path::join`. Trusted: the result depends on the
/// directory and the name alone, and `joined` is its name.
#[verifier::external_body]
fn join(dir: &PathBuf, name: &str) -> (path: PathBuf)
    ensures
        path == joined(*dir, name@),
{
    dir.join(name)
}

/// The place of the configuration file, given the configuration directory
/// that was resolved, if any.
pub fn locate(dir: Option<PathBuf>) -> (file: Option<ConfigFile>)
    ensures
        file.deep_view() == located(dir),
{
    match dir {
        Some(dir) => Some(ConfigFile { dir, name: String::from_str(CONFIG_FILE_NAME) }),
        None => None,
    }
}

/// Resolves the place of the configuration file for an application. Any of
/// the three strings may be empty. The answer depends on the platform and on
/// the user's environment; it is `None` where the system names no home
/// directory, which callers take as "use the defaults". Whatever directory
/// comes back, the file in it is `config.toml`.
pub fn resolve(qualifier: &str, organization: &str, application: &str) -> (file: Option<
    ConfigFile,
>)
    ensures
        file matches Some(f) ==> f@.name == CONFIG_FILE_NAME@,
{
    let dir = match project_dirs(qualifier, organization, application) {
        Some(dirs) => Some(config_dir(&dirs)),
        None => None,
    };
    locate(dir)
}

impl ConfigFile {
    /// The file's full path: the name joined onto the directory.
    pub fn path(&self) -> (path: PathBuf)
        ensures
            path == joined(self.dir, self.name@),
    {
        join(&self.dir, self.name.as_str())
    }
}

} // verus!
