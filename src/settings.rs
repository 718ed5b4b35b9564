//! Application settings and their defaults.
use vstd::prelude::*;

use crate::text::string_of;

verus! {

/// The colour theme.
#[derive(Debug, Clone, Copy, PartialEq, Eq, Structural)]
pub enum Theme {
    Light,
    Dark,
    System,
}

impl Default for Theme {
    fn default() -> (r: Self)
        ensures
            r == Theme::Dark,
    {
        Theme::Dark
    }
}

/// How notifications are shown.
#[derive(Debug, Clone)]
pub struct NotificationSettings {
    pub enabled: bool,
    pub show_preview: bool,
    pub show_sender: bool,
    pub sound: bool,
    pub sound_file: Option<String>,
    pub badge_count: bool,
    pub flash_taskbar: bool,
}

pub open spec fn is_default_notifications(n: NotificationSettings) -> bool {
    n.enabled && n.show_preview && n.show_sender && n.sound && n.sound_file is None && n.badge_count
        && n.flash_taskbar
}

impl Default for NotificationSettings {
    fn default() -> (r: Self)
        ensures
            is_default_notifications(r),
    {
        NotificationSettings {
            enabled: true,
            show_preview: true,
            show_sender: true,
            sound: true,
            sound_file: None,
            badge_count: true,
            flash_taskbar: true,
        }
    }
}

/// Screen lock and related privacy choices.
#[derive(Debug, Clone)]
pub struct PrivacySettings {
    pub screen_lock: bool,
    pub screen_lock_timeout: u32,
    pub block_screenshots: bool,
    pub incognito_keyboard: bool,
    pub registration_lock: bool,
}

pub open spec fn is_default_privacy(p: PrivacySettings) -> bool {
    !p.screen_lock && p.screen_lock_timeout == 300 && !p.block_screenshots && !p.incognito_keyboard
        && !p.registration_lock
}

impl Default for PrivacySettings {
    fn default() -> (r: Self)
        ensures
            is_default_privacy(r),
    {
        PrivacySettings {
            screen_lock: false,
            screen_lock_timeout: 300,
            block_screenshots: false,
            incognito_keyboard: false,
            registration_lock: false,
        }
    }
}

/// The quality media is sent at.
#[derive(Debug, Clone, Copy, PartialEq, Eq, Structural)]
pub enum MediaQuality {
    Low,
    Standard,
    High,
}

impl Default for MediaQuality {
    fn default() -> (r: Self)
        ensures
            r == MediaQuality::Standard,
    {
        MediaQuality::Standard
    }
}

/// What media is fetched without asking, and where it is saved.
#[derive(Debug, Clone)]
pub struct MediaSettings {
    pub auto_download_images_wifi: bool,
    pub auto_download_images_mobile: bool,
    pub auto_download_videos_wifi: bool,
    pub auto_download_videos_mobile: bool,
    pub auto_download_files_wifi: bool,
    pub auto_download_files_mobile: bool,
    pub media_quality: MediaQuality,
    pub save_to_gallery: bool,
    pub gallery_path: Option<String>,
}

pub open spec fn is_default_media(m: MediaSettings) -> bool {
    m.auto_download_images_wifi && m.auto_download_images_mobile && m.auto_download_videos_wifi
        && !m.auto_download_videos_mobile && m.auto_download_files_wifi
        && !m.auto_download_files_mobile && m.media_quality == MediaQuality::Standard
        && !m.save_to_gallery && m.gallery_path is None
}

impl Default for MediaSettings {
    fn default() -> (r: Self)
        ensures
            is_default_media(r),
    {
        MediaSettings {
            auto_download_images_wifi: true,
            auto_download_images_mobile: true,
            auto_download_videos_wifi: true,
            auto_download_videos_mobile: false,
            auto_download_files_wifi: true,
            auto_download_files_mobile: false,
            media_quality: MediaQuality::Standard,
            save_to_gallery: false,
            gallery_path: None,
        }
    }
}

/// Keyboard shortcuts.
#[derive(Debug, Clone)]
pub struct ShortcutSettings {
    pub global_open: Option<String>,
    pub new_conversation: String,
    pub search: String,
    pub next_conversation: String,
    pub prev_conversation: String,
    pub archive: String,
}

pub open spec fn is_default_shortcuts(s: ShortcutSettings) -> bool {
    s.global_open is None && s.new_conversation@ == "Ctrl+N"@ && s.search@ == "Ctrl+F"@
        && s.next_conversation@ == "Ctrl+Tab"@ && s.prev_conversation@ == "Ctrl+Shift+Tab"@
        && s.archive@ == "Ctrl+Shift+A"@
}

impl Default for ShortcutSettings {
    fn default() -> (r: Self)
        ensures
            is_default_shortcuts(r),
    {
        ShortcutSettings {
            global_open: None,
            new_conversation: string_of("Ctrl+N"),
            search: string_of("Ctrl+F"),
            next_conversation: string_of("Ctrl+Tab"),
            prev_conversation: string_of("Ctrl+Shift+Tab"),
            archive: string_of("Ctrl+Shift+A"),
        }
    }
}

/// The main window's placement.
#[derive(Debug, Clone)]
pub struct WindowSettings {
    pub start_minimized: bool,
    pub start_on_boot: bool,
    pub close_to_tray: bool,
    pub window_x: Option<i32>,
    pub window_y: Option<i32>,
    pub window_width: Option<u32>,
    pub window_height: Option<u32>,
    pub window_maximized: bool,
    pub sidebar_width: u32,
}

pub open spec fn is_default_window(w: WindowSettings) -> bool {
    !w.start_minimized && !w.start_on_boot && w.close_to_tray && w.window_x is None
        && w.window_y is None && w.window_width == Some(1200u32) && w.window_height == Some(800u32)
        && !w.window_maximized && w.sidebar_width == 300
}

impl Default for WindowSettings {
    fn default() -> (r: Self)
        ensures
            is_default_window(r),
    {
        WindowSettings {
            start_minimized: false,
            start_on_boot: false,
            close_to_tray: true,
            window_x: None,
            window_y: None,
            window_width: Some(1200),
            window_height: Some(800),
            window_maximized: false,
            sidebar_width: 300,
        }
    }
}

/// All application settings.
#[derive(Debug, Clone)]
pub struct Settings {
    pub theme: Theme,
    pub language: String,
    pub typing_indicators: bool,
    pub read_receipts: bool,
    pub link_previews: bool,
    pub notifications: NotificationSettings,
    pub privacy: PrivacySettings,
    pub media: MediaSettings,
    pub shortcuts: ShortcutSettings,
    pub window: WindowSettings,
}

/// The settings a new installation starts with.
pub open spec fn is_default_settings(s: Settings) -> bool {
    s.theme == Theme::Dark && s.language@ == "en"@ && s.typing_indicators && s.read_receipts
        && s.link_previews && is_default_notifications(s.notifications) && is_default_privacy(
        s.privacy,
    ) && is_default_media(s.media) && is_default_shortcuts(s.shortcuts) && is_default_window(
        s.window,
    )
}

impl Default for Settings {
    fn default() -> (r: Self)
        ensures
            is_default_settings(r),
    {
        Settings {
            theme: Theme::Dark,
            language: string_of("en"),
            typing_indicators: true,
            read_receipts: true,
            link_previews: true,
            notifications: NotificationSettings::default(),
            privacy: PrivacySettings::default(),
            media: MediaSettings::default(),
            shortcuts: ShortcutSettings::default(),
            window: WindowSettings::default(),
        }
    }
}

/// The settings in use, and the file they are saved to.
pub struct SettingsRepository {
    settings_path: String,
    settings: Settings,
}

impl SettingsRepository {
    pub closed spec fn settings_spec(&self) -> Settings {
        self.settings
    }

    pub closed spec fn path_spec(&self) -> Seq<char> {
        self.settings_path@
    }

    /// A repository of `settings`, saved to `settings_path`.
    pub fn with_settings(settings_path: String, settings: Settings) -> (r: Self)
        ensures
            r.settings_spec() == settings,
            r.path_spec() == settings_path@,
    {
        SettingsRepository { settings_path, settings }
    }

    /// Where the settings are saved.
    pub fn settings_path(&self) -> (r: &str)
        ensures
            r@ == self.path_spec(),
    {
        self.settings_path.as_str()
    }

    pub fn get(&self) -> (r: &Settings)
        ensures
            *r == self.settings_spec(),
    {
        &self.settings
    }

    pub fn get_mut(&mut self) -> (r: &mut Settings)
        ensures
            *r == old(self).settings_spec(),
            final(self).settings_spec() == *final(r),
            final(self).path_spec() == old(self).path_spec(),
    {
        &mut self.settings
    }

    /// Back to the defaults.
    pub fn reset(&mut self)
        ensures
            is_default_settings(final(self).settings_spec()),
            final(self).path_spec() == old(self).path_spec(),
    {
        self.settings = Settings::default();
    }
}

} // verus!
