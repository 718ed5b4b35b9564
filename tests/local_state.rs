use signal_link::contacts::{contact_from_sync, StoredContact};
use signal_link::groups::{GroupRepository, MemberRole};
use signal_link::services::{invalidate_contacts_cache, invalidate_conversations_cache, ListCache, SyncService};
use signal_link::settings::{MediaQuality, Settings, SettingsRepository, Theme};

fn contact(profile: Option<&str>, name: &str, phone: Option<&str>) -> StoredContact {
    StoredContact {
        id: "id".to_string(),
        uuid: "uuid-1".to_string(),
        phone_number: phone.map(|p| p.to_string()),
        name: name.to_string(),
        profile_name: profile.map(|p| p.to_string()),
        avatar_path: None,
        profile_key: None,
        is_blocked: false,
        is_verified: false,
        created_at: 0,
        updated_at: 0,
    }
}

#[test]
fn display_name_prefers_profile_then_name_then_phone_then_uuid() {
    assert_eq!(contact(Some("P"), "N", Some("+1")).display_name(), "P");
    assert_eq!(contact(Some(""), "N", Some("+1")).display_name(), "N");
    assert_eq!(contact(None, "", Some("+1")).display_name(), "+1");
    assert_eq!(contact(None, "", None).display_name(), "uuid-1");
}

#[test]
fn settings_defaults_edit_and_reset() {
    let mut repo = SettingsRepository::with_settings("settings.json".to_string(), Settings::default());
    assert_eq!(repo.get().theme, Theme::Dark);
    assert_eq!(repo.get().language, "en");
    assert_eq!(repo.get().media.media_quality, MediaQuality::Standard);
    assert_eq!(repo.get().window.window_width, Some(1200));
    repo.get_mut().theme = Theme::Light;
    repo.get_mut().privacy.screen_lock = true;
    assert_eq!(repo.get().theme, Theme::Light);
    repo.reset();
    assert_eq!(repo.get().theme, Theme::Dark);
    assert!(!repo.get().privacy.screen_lock);
    assert_eq!(repo.get().privacy.screen_lock_timeout, 300);
    assert_eq!(repo.settings_path(), "settings.json");
}

#[test]
fn services_and_caches() {
    assert_eq!(SyncService::new().interval_secs, 300);
    let mut cache = ListCache::new();
    cache.conversations_dirty = false;
    cache.contacts_dirty = false;
    invalidate_conversations_cache(&mut cache);
    assert!(cache.conversations_dirty && !cache.contacts_dirty);
    invalidate_contacts_cache(&mut cache);
    assert!(cache.contacts_dirty);
    let _ = GroupRepository::new();
    assert_eq!(MemberRole::default(), MemberRole::Default);
}

#[test]
fn synced_contacts_map_empty_fields_to_none() {
    let c = contact_from_sync("u-1".to_string(), Some("+1".to_string()), String::new(), vec![], 77);
    assert_eq!(c.id, "u-1");
    assert_eq!(c.profile_name, None);
    assert_eq!(c.profile_key, None);
    assert_eq!(c.created_at, 77);
    assert_eq!(c.display_name(), "+1");
    let c = contact_from_sync("u-2".to_string(), None, "Dana".to_string(), vec![1, 2], 0);
    assert_eq!(c.profile_name.as_deref(), Some("Dana"));
    assert_eq!(c.profile_key, Some(vec![1, 2]));
}
