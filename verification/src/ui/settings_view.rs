//! Settings pages and the texts they show.
use vstd::prelude::*;
use vstd::string::*;
use crate::client::{MaintenanceResult, VaultPluginInfo};
use crate::config::knotty_config::{AppearancePreferences, ColorSchemePreference, KnottyConfig};
use crate::text::{decimal, signed_decimal, i64_to_string};

verus! {

/// A page of the settings surface.
#[derive(Debug, Clone, Copy, PartialEq, Eq, Structural)]
pub enum SettingsSection {
    General,
    Appearance,
    Controls,
    Vault,
    Plugins,
    Maintenance,
}

/// The settings pages in the order they are listed.
pub open spec fn all_sections() -> Seq<SettingsSection> {
    seq![
        SettingsSection::General,
        SettingsSection::Appearance,
        SettingsSection::Controls,
        SettingsSection::Vault,
        SettingsSection::Plugins,
        SettingsSection::Maintenance,
    ]
}

/// The heading each page shows.
pub open spec fn section_title(s: SettingsSection) -> Seq<char> {
    match s {
        SettingsSection::General => "General"@,
        SettingsSection::Appearance => "Appearance"@,
        SettingsSection::Controls => "Controls"@,
        SettingsSection::Vault => "Vault"@,
        SettingsSection::Plugins => "Plugins"@,
        SettingsSection::Maintenance => "Maintenance"@,
    }
}

/// The name each page has in the page stack and in automation.
pub open spec fn section_name(s: SettingsSection) -> Seq<char> {
    match s {
        SettingsSection::General => "general"@,
        SettingsSection::Appearance => "appearance"@,
        SettingsSection::Controls => "controls"@,
        SettingsSection::Vault => "vault"@,
        SettingsSection::Plugins => "plugins"@,
        SettingsSection::Maintenance => "maintenance"@,
    }
}

impl SettingsSection {
    /// Every page, in the order they are listed.
    pub fn all() -> (r: Vec<SettingsSection>)
        ensures
            r@ == all_sections(),
    {
        let mut r: Vec<SettingsSection> = Vec::new();
        r.push(SettingsSection::General);
        r.push(SettingsSection::Appearance);
        r.push(SettingsSection::Controls);
        r.push(SettingsSection::Vault);
        r.push(SettingsSection::Plugins);
        r.push(SettingsSection::Maintenance);
        assert(r@ =~= all_sections());
        r
    }

    /// The page's heading.
    pub fn title(self) -> (r: &'static str)
        ensures
            r@ == section_title(self),
    {
        match self {
            SettingsSection::General => "General",
            SettingsSection::Appearance => "Appearance",
            SettingsSection::Controls => "Controls",
            SettingsSection::Vault => "Vault",
            SettingsSection::Plugins => "Plugins",
            SettingsSection::Maintenance => "Maintenance",
        }
    }

    /// The page's name in the page stack.
    pub fn stack_name(self) -> (r: &'static str)
        ensures
            r@ == section_name(self),
    {
        match self {
            SettingsSection::General => "general",
            SettingsSection::Appearance => "appearance",
            SettingsSection::Controls => "controls",
            SettingsSection::Vault => "vault",
            SettingsSection::Plugins => "plugins",
            SettingsSection::Maintenance => "maintenance",
        }
    }
}

/// The editable vault settings.
#[derive(Debug, Clone, PartialEq, Eq)]
pub struct VaultSettingsForm {
    pub file_visibility: String,
    pub font_size: i32,
    pub tab_size: i32,
}

/// The editable plugin settings.
#[derive(Debug, Clone, Copy, PartialEq, Eq, Structural)]
pub struct PluginSettingsForm {
    pub plugins_enabled: bool,
}

/// `yes` or `no`.
pub fn yes_no(value: bool) -> (r: &'static str)
    ensures
        r@ == (if value {
            "yes"@
        } else {
            "no"@
        }),
{
    if value {
        "yes"
    } else {
        "no"
    }
}

/// The text of a flag as the plugin list shows it.
pub open spec fn yes_no_text(b: bool) -> Seq<char> {
    if b {
        "yes"@
    } else {
        "no"@
    }
}

/// The title and subtitle of one plugin's row: the plugin's title (its id
/// when untitled), and its configured state, with the effective state when
/// that differs.
pub open spec fn plugin_row_spec(p: VaultPluginInfo) -> (Seq<char>, Seq<char>) {
    (if p.title@.len() == 0 {
        p.id@
    } else {
        p.title@
    }, match p.effective_enabled {
        Some(e) => if e != p.enabled {
            "configured: "@ + yes_no_text(p.enabled) + ", effective: "@ + yes_no_text(e)
        } else {
            "enabled: "@ + yes_no_text(p.enabled)
        },
        None => "enabled: "@ + yes_no_text(p.enabled),
    })
}

/// The rows of the plugin list: one per plugin, or one explaining that
/// there are none.
pub open spec fn plugin_rows_spec(plugins: Seq<VaultPluginInfo>) -> Seq<(Seq<char>, Seq<char>)> {
    if plugins.len() == 0 {
        seq![("No plugins reported by knotd"@, "The vault currently has no visible plugin state."@)]
    } else {
        plugins.map_values(|p: VaultPluginInfo| plugin_row_spec(p))
    }
}

/// The rows of the plugin list, as (title, subtitle).
pub fn plugin_rows(plugins: &Vec<VaultPluginInfo>) -> (r: Vec<(String, String)>)
    ensures
        r@.map_values(|x: (String, String)| (x.0@, x.1@)) == plugin_rows_spec(plugins@),
{
    let mut r: Vec<(String, String)> = Vec::new();
    if plugins.len() == 0 {
        r.push(
            (
                String::from_str("No plugins reported by knotd"),
                String::from_str("The vault currently has no visible plugin state."),
            ),
        );
        assert(r@.map_values(|x: (String, String)| (x.0@, x.1@)) =~= plugin_rows_spec(plugins@));
        return r;
    }
    let mut i: usize = 0;
    while i < plugins.len()
        invariant
            i <= plugins.len(),
            r@.map_values(|x: (String, String)| (x.0@, x.1@)) == plugins@.subrange(0, i as int).map_values(
                |p: VaultPluginInfo| plugin_row_spec(p),
            ),
        decreases plugins.len() - i,
    {
        let p = &plugins[i];
        let title = if crate::text::chars_of(p.title.as_str()).len() == 0 {
            p.id.clone()
        } else {
            p.title.clone()
        };
        let subtitle = match p.effective_enabled {
            Some(e) => {
                if e != p.enabled {
                    let mut s = String::from_str("configured: ");
                    s.append(yes_no(p.enabled));
                    s.append(", effective: ");
                    s.append(yes_no(e));
                    s
                } else {
                    crate::text::concat("enabled: ", yes_no(p.enabled))
                }
            },
            None => crate::text::concat("enabled: ", yes_no(p.enabled)),
        };
        let ghost before = r@.map_values(|x: (String, String)| (x.0@, x.1@));
        r.push((title, subtitle));
        assert(r@.map_values(|x: (String, String)| (x.0@, x.1@)) =~= before.push(plugin_row_spec(*p)));
        i = i + 1;
        assert(plugins@.subrange(0, i as int).map_values(|p: VaultPluginInfo| plugin_row_spec(p))
            =~= plugins@.subrange(0, i - 1).map_values(|p: VaultPluginInfo| plugin_row_spec(p)).push(
            plugin_row_spec(plugins@[i - 1]),
        ));
    }
    assert(plugins@.subrange(0, plugins.len() as int) =~= plugins@);
    r
}

/// What a finished maintenance run reports: its message when it has one,
/// else the number of items it reindexed, else that it is done.
pub open spec fn maintenance_text(r: MaintenanceResult) -> Seq<char> {
    match r {
        MaintenanceResult::Message(m) => m@,
        MaintenanceResult::Count(c) => "Reindexed "@ + signed_decimal(c as int) + " items"@,
        MaintenanceResult::Object { message: Some(m), .. } => m@,
        MaintenanceResult::Object { count: Some(c), .. } => "Reindexed "@ + signed_decimal(c as int)
            + " items"@,
        MaintenanceResult::Object { reindexed: Some(c), .. } => "Reindexed "@ + signed_decimal(
            c as int,
        ) + " items"@,
        MaintenanceResult::Object { .. } => "Maintenance complete"@,
    }
}

fn reindexed_text(count: i64) -> (r: String)
    ensures
        r@ == "Reindexed "@ + signed_decimal(count as int) + " items"@,
{
    let mut s = String::from_str("Reindexed ");
    let n = i64_to_string(count);
    s.append(n.as_str());
    s.append(" items");
    s
}

/// What a finished maintenance run reports.
pub fn format_maintenance_result(result: &MaintenanceResult) -> (r: String)
    ensures
        r@ == maintenance_text(*result),
{
    match result {
        MaintenanceResult::Message(message) => message.clone(),
        MaintenanceResult::Count(count) => reindexed_text(*count),
        MaintenanceResult::Object { message: Some(message), .. } => message.clone(),
        MaintenanceResult::Object { count: Some(count), .. } => reindexed_text(*count),
        MaintenanceResult::Object { reindexed: Some(count), .. } => reindexed_text(*count),
        MaintenanceResult::Object { .. } => String::from_str("Maintenance complete"),
    }
}

/// The position of a colour scheme in the scheme chooser.
pub fn color_scheme_index(scheme: ColorSchemePreference) -> (r: u32)
    ensures
        r == match scheme {
            ColorSchemePreference::System => 0u32,
            ColorSchemePreference::Light => 1u32,
            ColorSchemePreference::Dark => 2u32,
        },
{
    match scheme {
        ColorSchemePreference::System => 0,
        ColorSchemePreference::Light => 1,
        ColorSchemePreference::Dark => 2,
    }
}

/// The colour scheme at a position of the chooser (the system scheme for
/// any other position).
pub open spec fn scheme_at(index: u32) -> ColorSchemePreference {
    if index == 1 {
        ColorSchemePreference::Light
    } else if index == 2 {
        ColorSchemePreference::Dark
    } else {
        ColorSchemePreference::System
    }
}

/// The settings after the appearance controls are read: the chosen scheme
/// and widths replace the appearance, everything else is kept.
pub fn gather_config_from_widgets(
    existing_config: &KnottyConfig,
    selected_scheme: u32,
    context_panel_width: i32,
    inspector_width: i32,
) -> (r: KnottyConfig)
    ensures
        r.automation == existing_config.automation,
        r.appearance == (AppearancePreferences {
            context_panel_width,
            inspector_width,
            color_scheme: scheme_at(selected_scheme),
        }),
{
    let color_scheme = if selected_scheme == 1 {
        ColorSchemePreference::Light
    } else if selected_scheme == 2 {
        ColorSchemePreference::Dark
    } else {
        ColorSchemePreference::System
    };
    KnottyConfig {
        appearance: AppearancePreferences { context_panel_width, inspector_width, color_scheme },
        automation: existing_config.automation,
    }
}

/// A chosen colour scheme survives writing it to the chooser and reading it
/// back.
pub proof fn law_color_scheme_round_trip(scheme: ColorSchemePreference)
    ensures
        scheme_at(match scheme {
            ColorSchemePreference::System => 0u32,
            ColorSchemePreference::Light => 1u32,
            ColorSchemePreference::Dark => 2u32,
        }) == scheme,
{
}

} // verus!
