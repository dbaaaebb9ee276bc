//! The client's own settings file (`knotty.toml`) and where it lives.
use vstd::prelude::*;
use vstd::string::*;
use crate::paths::{join, join_path};

verus! {

/// Which colour scheme the window asks for.
#[derive(Debug, Clone, Copy, PartialEq, Eq, Structural)]
pub enum ColorSchemePreference {
    System,
    Light,
    Dark,
}

impl Default for ColorSchemePreference {
    fn default() -> (r: Self)
        ensures
            r == ColorSchemePreference::System,
    {
        ColorSchemePreference::System
    }
}

/// Layout and colour settings.
#[derive(Debug, Clone, Copy, PartialEq, Eq, Structural)]
pub struct AppearancePreferences {
    pub context_panel_width: i32,
    pub inspector_width: i32,
    pub color_scheme: ColorSchemePreference,
}

impl Default for AppearancePreferences {
    fn default() -> (r: Self)
        ensures
            r.context_panel_width == 280,
            r.inspector_width == 280,
            r.color_scheme == ColorSchemePreference::System,
    {
        AppearancePreferences {
            context_panel_width: default_context_panel_width(),
            inspector_width: default_inspector_width(),
            color_scheme: ColorSchemePreference::System,
        }
    }
}

/// Whether UI automation is allowed by the settings file.
#[derive(Debug, Clone, Copy, PartialEq, Eq, Structural)]
pub struct AutomationConfig {
    pub enabled: bool,
}

impl Default for AutomationConfig {
    fn default() -> (r: Self)
        ensures
            !r.enabled,
    {
        AutomationConfig { enabled: false }
    }
}

/// The whole settings file.
#[derive(Debug, Clone, Copy, PartialEq, Eq, Structural)]
pub struct KnottyConfig {
    pub appearance: AppearancePreferences,
    pub automation: AutomationConfig,
}

impl Default for KnottyConfig {
    fn default() -> (r: Self)
        ensures
            r.appearance.context_panel_width == 280,
            r.appearance.inspector_width == 280,
            r.appearance.color_scheme == ColorSchemePreference::System,
            !r.automation.enabled,
    {
        KnottyConfig { appearance: AppearancePreferences::default(), automation: AutomationConfig::default() }
    }
}

/// Width of the context panel when nothing is configured.
pub fn default_context_panel_width() -> (r: i32)
    ensures
        r == 280,
{
    280
}

/// Width of the inspector when nothing is configured.
pub fn default_inspector_width() -> (r: i32)
    ensures
        r == 280,
{
    280
}

/// The complaint when neither `XDG_CONFIG_HOME` nor `HOME` is known.
pub open spec fn unresolved_config_text() -> Seq<char> {
    "Cannot resolve knotty config path without XDG_CONFIG_HOME or HOME"@
}

/// The configuration root: `XDG_CONFIG_HOME` when set, else `$HOME/.config`.
pub open spec fn config_root(xdg_config_home: Option<Seq<char>>, home: Option<Seq<char>>) -> Option<
    Seq<char>,
> {
    match xdg_config_home {
        Some(x) => Some(x),
        None => match home {
            Some(h) => Some(join_path(h, ".config"@)),
            None => None,
        },
    }
}

/// The view of an optional `&str`.
pub open spec fn opt_view(s: Option<&str>) -> Option<Seq<char>> {
    match s {
        Some(x) => Some(x@),
        None => None,
    }
}

/// The configuration root directory, given the values of `XDG_CONFIG_HOME`
/// and `HOME` (each `None` when unset).
pub fn config_root_with_env(xdg_config_home: Option<&str>, home: Option<&str>) -> (r: Result<
    String,
    String,
>)
    ensures
        match config_root(opt_view(xdg_config_home), opt_view(home)) {
            Some(root) => r matches Ok(p) && p@ == root,
            None => r matches Err(e) && e@ == unresolved_config_text(),
        },
{
    if let Some(path) = xdg_config_home {
        return Ok(String::from_str(path));
    }
    match home {
        Some(h) => Ok(join(h, ".config")),
        None => Err(String::from_str("Cannot resolve knotty config path without XDG_CONFIG_HOME or HOME")),
    }
}

/// Where `knotty.toml` lives below a configuration root.
pub open spec fn config_file_under(root: Seq<char>) -> Seq<char> {
    join_path(join_path(root, "knot"@), "knotty.toml"@)
}

/// The path of `knotty.toml`, given the values of `XDG_CONFIG_HOME` and `HOME`.
pub fn knotty_config_path_with_env(xdg_config_home: Option<&str>, home: Option<&str>) -> (r: Result<
    String,
    String,
>)
    ensures
        match config_root(opt_view(xdg_config_home), opt_view(home)) {
            Some(root) => r matches Ok(p) && p@ == config_file_under(root),
            None => r matches Err(e) && e@ == unresolved_config_text(),
        },
{
    let root = config_root_with_env(xdg_config_home, home)?;
    let dir = join(root.as_str(), "knot");
    Ok(join(dir.as_str(), "knotty.toml"))
}

} // verus!
