use vstd::prelude::*;

verus! {

/// Configuration snapshot consumed by the submission gate and the dispatch
/// loop. A snapshot is read once per scheduling tick and never mutated by the
/// core; updates go through [`SettingsManager::update`].
pub struct Settings {
    pub download_path: String,
    pub filename_template: String,
    pub max_concurrent: usize,
    pub enable_notifications: bool,
    pub enable_sound: bool,
    pub check_duplicates: bool,
}

impl Clone for Settings {
    fn clone(&self) -> (r: Self)
        ensures
            r == *self,
    {
        Settings {
            download_path: self.download_path.clone(),
            filename_template: self.filename_template.clone(),
            max_concurrent: self.max_concurrent,
            enable_notifications: self.enable_notifications,
            enable_sound: self.enable_sound,
            check_duplicates: self.check_duplicates,
        }
    }
}

impl Default for Settings {
    fn default() -> (s: Self)
        ensures
            s.download_path@ == "C:\\Users\\Lucas\\Desktop"@,
            s.filename_template@ == "%(title)s.%(ext)s"@,
            s.max_concurrent == 3,
            s.enable_notifications,
            s.enable_sound,
            s.check_duplicates,
    {
        Settings {
            download_path: "C:\\Users\\Lucas\\Desktop".to_owned(),
            filename_template: "%(title)s.%(ext)s".to_owned(),
            max_concurrent: 3,
            enable_notifications: true,
            enable_sound: true,
            check_duplicates: true,
        }
    }
}

/// Owner of the current settings value. Persistence (loading the initial
/// value, saving after an update) is left to the embedding program; the core
/// only holds and hands out snapshots.
pub struct SettingsManager {
    pub settings: Settings,
}

impl SettingsManager {
    /// Starts managing the given initial value.
    pub fn new(initial: Settings) -> (m: Self)
        ensures
            m.settings == initial,
    {
        SettingsManager { settings: initial }
    }

    /// Returns a snapshot of the current settings.
    pub fn get(&self) -> (s: Settings)
        ensures
            s == self.settings,
    {
        self.settings.clone()
    }

    /// Replaces the current settings with a new value.
    pub fn update(&mut self, new_settings: Settings)
        ensures
            final(self).settings == new_settings,
    {
        self.settings = new_settings;
    }
}

} // verus!
