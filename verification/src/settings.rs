//! Where the bridge sends to, and where that is kept.
//!
//! Reading and writing the settings file is the caller's part; this module
//! holds the defaults, the rule for falling back to them, and the place of
//! the file under the user's local data directory.

use vstd::prelude::*;
use vstd::string::*;

verus! {

/// Name of the application's directory under the local data directory.
pub const APP_NAME: &'static str = "PulseOSC";

/// Name of the settings file inside the application's directory.
pub const SETTINGS_FILE_NAME: &'static str = "settings.json";

pub const DEFAULT_OSC_ADDRESS: &'static str = "127.0.0.1";

pub const DEFAULT_OSC_PORT: u16 = 9000;

/// Separator between the components of a path.
pub const PATH_SEPARATOR: char = '/';

/// The OSC target.
#[derive(Debug, PartialEq, Eq, Hash)]
pub struct AppSettings {
    pub osc_address: String,
    pub osc_port: u16,
}

/// The mathematical value of [`AppSettings`].
pub struct SettingsView {
    pub osc_address: Seq<char>,
    pub osc_port: u16,
}

impl View for AppSettings {
    type V = SettingsView;

    open spec fn view(&self) -> SettingsView {
        SettingsView { osc_address: self.osc_address@, osc_port: self.osc_port }
    }
}

impl Clone for AppSettings {
    fn clone(&self) -> (copy: Self)
        ensures
            copy@ == self@,
    {
        AppSettings { osc_address: self.osc_address.clone(), osc_port: self.osc_port }
    }
}

/// The settings of a fresh installation: the loopback address and port 9000.
pub open spec fn default_settings() -> SettingsView {
    SettingsView { osc_address: DEFAULT_OSC_ADDRESS@, osc_port: DEFAULT_OSC_PORT }
}

/// The default settings. The caller stores them and takes them into use.
pub fn reset_app_settings() -> (settings: AppSettings)
    ensures
        settings@ == default_settings(),
{
    AppSettings { osc_address: DEFAULT_OSC_ADDRESS.to_owned(), osc_port: DEFAULT_OSC_PORT }
}

/// What the caller found where the settings are kept.
#[derive(Debug, PartialEq, Eq)]
pub enum StoredSettings {
    /// There is no settings file.
    Missing,
    /// The file could not be read.
    Unreadable,
    /// The file does not hold settings.
    Malformed,
    /// The file holds these settings.
    Parsed(AppSettings),
}

/// The settings to use, and whether they are to be written back.
#[derive(Debug, PartialEq, Eq)]
pub struct LoadedSettings {
    pub settings: AppSettings,
    /// The defaults were taken: the caller writes them to the settings file.
    pub rewrite: bool,
}

/// Settles the settings to use: those that were stored, or, where none
/// could be had, the defaults, which are then to be written back.
pub fn read_app_settings(stored: StoredSettings) -> (loaded: LoadedSettings)
    ensures
        match stored {
            StoredSettings::Parsed(settings) => loaded.settings@ == settings@ && !loaded.rewrite,
            _ => loaded.settings@ == default_settings() && loaded.rewrite,
        },
{
    match stored {
        StoredSettings::Parsed(settings) => LoadedSettings { settings, rewrite: false },
        _ => LoadedSettings { settings: reset_app_settings(), rewrite: true },
    }
}

/// The path of `name` inside the directory `dir`: the two joined by one
/// separator, which is left out where `dir` is empty or ends in one.
pub open spec fn joined(dir: Seq<char>, name: Seq<char>) -> Seq<char> {
    if dir.len() == 0 || dir.last() == PATH_SEPARATOR {
        dir + name
    } else {
        dir.push(PATH_SEPARATOR) + name
    }
}

fn join(dir: &str, name: &str) -> (path: String)
    ensures
        path@ == joined(dir@, name@),
{
    let mut path = dir.to_owned();
    let len = dir.unicode_len();
    if len > 0 && dir.get_char(len - 1) != PATH_SEPARATOR {
        proof {
            reveal_strlit("/");
        }
        path.append("/");
        assert(path@ =~= dir@.push(PATH_SEPARATOR));
    }
    path.append(name);
    path
}

/// The application's directory under the user's local data directory.
pub open spec fn app_config_path(data_local_dir: Seq<char>) -> Seq<char> {
    joined(data_local_dir, APP_NAME@)
}

/// The settings file, inside the application's directory.
pub open spec fn app_settings_path(data_local_dir: Seq<char>) -> Seq<char> {
    joined(app_config_path(data_local_dir), SETTINGS_FILE_NAME@)
}

/// Path of the application's directory, given the user's local data
/// directory. The caller creates the directory where it is missing.
pub fn get_app_config_path(data_local_dir: &str) -> (path: String)
    ensures
        path@ == app_config_path(data_local_dir@),
{
    join(data_local_dir, APP_NAME)
}

/// Path of the settings file, given the user's local data directory.
pub fn get_app_settings_path(data_local_dir: &str) -> (path: String)
    ensures
        path@ == app_settings_path(data_local_dir@),
{
    let config_dir = get_app_config_path(data_local_dir);
    join(config_dir.as_str(), SETTINGS_FILE_NAME)
}

} // verus!
