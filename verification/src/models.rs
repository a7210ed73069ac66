//! Client-side application models.
//!
//! The graphical client keeps a small settings model, the credentials it
//! collects from the user, and the fixed catalogue of services one can
//! authenticate against. Persistence of the settings is the caller's
//! business; the model itself only holds and updates the values.

use vstd::prelude::*;
use vstd::string::StringExecFns;

verus! {

/// The client's colour theme preference.
#[derive(Clone, Copy, Debug, PartialEq, Eq, Structural)]
pub enum ThemeMode {
    Light,
    Dark,
    System,
}

impl Default for ThemeMode {
    /// The default theme follows the system.
    fn default() -> (r: Self)
        ensures
            r == ThemeMode::System,
    {
        ThemeMode::System
    }
}

/// The client's persisted settings.
#[derive(Clone, Copy, Debug, PartialEq, Eq, Structural)]
pub struct SettingsModel {
    pub theme_mode: ThemeMode,
    pub biometric_enabled: bool,
}

impl SettingsModel {
    /// A fresh model with the default settings.
    pub fn new() -> (r: Self)
        ensures
            r.theme_mode == ThemeMode::System,
            !r.biometric_enabled,
    {
        SettingsModel { theme_mode: ThemeMode::System, biometric_enabled: false }
    }

    /// Sets the theme, leaving the other settings unchanged.
    pub fn set_theme_mode(&mut self, mode: ThemeMode)
        ensures
            final(self).theme_mode == mode,
            final(self).biometric_enabled == old(self).biometric_enabled,
    {
        self.theme_mode = mode;
    }

    /// Enables or disables biometric unlock, leaving the other settings
    /// unchanged.
    pub fn set_biometric_enabled(&mut self, enabled: bool)
        ensures
            final(self).biometric_enabled == enabled,
            final(self).theme_mode == old(self).theme_mode,
    {
        self.biometric_enabled = enabled;
    }
}

impl Default for SettingsModel {
    /// The default model: system theme, biometrics off.
    fn default() -> (r: Self)
        ensures
            r.theme_mode == ThemeMode::System,
            !r.biometric_enabled,
    {
        SettingsModel { theme_mode: ThemeMode::System, biometric_enabled: false }
    }
}

/// The identity the user types in at the login page.
#[derive(Clone, Debug)]
pub struct UserCredentials {
    pub user_id: String,
    pub password: String,
}

/// One service a user can authenticate against.
#[derive(Clone, Debug)]
pub struct Service {
    pub name: String,
    pub id: String,
}

impl Service {
    /// The fixed catalogue of services, in display order.
    pub fn get_all_services() -> (r: Vec<Service>)
        ensures
            r@.len() == 7,
            r@[0].name@ == "Webmail"@ && r@[0].id@ == "webmail"@,
            r@[1].name@ == "Gradescope"@ && r@[1].id@ == "gradescope"@,
            r@[2].name@ == "Library"@ && r@[2].id@ == "library"@,
            r@[3].name@ == "WiFi Access"@ && r@[3].id@ == "wifi"@,
            r@[4].name@ == "Badal VM"@ && r@[4].id@ == "badal"@,
            r@[5].name@ == "Moodle"@ && r@[5].id@ == "moodle"@,
            r@[6].name@ == "Admin Login"@ && r@[6].id@ == "admin"@,
    {
        let mut r: Vec<Service> = Vec::new();
        r.push(Service { name: String::from_str("Webmail"), id: String::from_str("webmail") });
        r.push(
            Service { name: String::from_str("Gradescope"), id: String::from_str("gradescope") },
        );
        r.push(Service { name: String::from_str("Library"), id: String::from_str("library") });
        r.push(Service { name: String::from_str("WiFi Access"), id: String::from_str("wifi") });
        r.push(Service { name: String::from_str("Badal VM"), id: String::from_str("badal") });
        r.push(Service { name: String::from_str("Moodle"), id: String::from_str("moodle") });
        r.push(Service { name: String::from_str("Admin Login"), id: String::from_str("admin") });
        r
    }
}

} // verus!
