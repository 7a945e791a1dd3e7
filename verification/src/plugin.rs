//! Records of the companion plugin's installation.
//!
//! Probing and writing the plugin file are filesystem work done outside the
//! library; what is decided here is how the probe's findings become the
//! reported records.

use vstd::prelude::*;
use vstd::string::StringExecFns;

verus! {

/// What a check of the plugin file found.
#[derive(Debug)]
pub struct PluginStatus {
    pub installed: bool,
    pub path: String,
    pub is_current_version: bool,
    pub plugins_folder: String,
}

/// The outcome of writing the plugin file.
#[derive(Debug)]
pub struct InstallResult {
    pub success: bool,
    pub path: String,
    pub message: String,
}

/// The verdict of a plugin check: installed exactly when the file exists,
/// current exactly when its content could be read and matched the bundled
/// source (unreadable content counts as outdated).
pub fn plugin_check_verdict(
    file_exists: bool,
    content_matches: Option<bool>,
    path: String,
    plugins_folder: String,
) -> (r: PluginStatus)
    ensures
        r.installed == file_exists,
        r.is_current_version == (file_exists && content_matches matches Some(true)),
        r.path == path,
        r.plugins_folder == plugins_folder,
{
    let is_current = if file_exists {
        match content_matches {
            Some(m) => m,
            None => false,
        }
    } else {
        false
    };
    PluginStatus { installed: file_exists, path, is_current_version: is_current, plugins_folder }
}

/// The record reported after the plugin file was written.
pub fn install_result(path: String) -> (r: InstallResult)
    ensures
        r.success,
        r.path == path,
        r.message@ == "Plugin installed successfully. Restart Roblox Studio to load it."@,
{
    InstallResult {
        success: true,
        path,
        message: String::from_str(
            "Plugin installed successfully. Restart Roblox Studio to load it.",
        ),
    }
}

} // verus!
