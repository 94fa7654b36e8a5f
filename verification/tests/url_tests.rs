use ytdl_monitor::settings::{Settings, SettingsManager};
use ytdl_monitor::strutil::{str_contains, str_eq, str_starts_with};
use ytdl_monitor::urlcheck::{is_video_text, is_video_url};

#[test]
fn recognizes_known_domains() {
    assert!(is_video_url("https://youtube.com/watch?v=abc"));
    assert!(is_video_url("https://youtu.be/abc"));
    assert!(is_video_url("http://vimeo.com/12345"));
    assert!(is_video_url("https://www.twitch.tv/somestream"));
    assert!(is_video_url("https://x.com/someone/status/1"));
}

#[test]
fn rejects_unknown_domain_and_bad_scheme() {
    assert!(!is_video_url("https://example.com/watch"));
    assert!(!is_video_url("ftp://youtube.com/abc"));
    assert!(!is_video_url("youtube.com/abc"));
    assert!(!is_video_url(""));
}

#[test]
fn matching_is_case_insensitive() {
    // would fail if lowercasing handed its argument back unchanged, since the
    // classifier itself only knows the lowercase domain names
    assert!(is_video_url("HTTPS://YOUTUBE.COM/WATCH?V=ABC"));
    assert!(is_video_url("HtTpS://YouTu.Be/AbC"));
    // the classifier on its own expects already-lowered text
    assert!(!is_video_text("HTTPS://YOUTUBE.COM/X"));
    assert!(is_video_text("https://youtube.com/x"));
}

#[test]
fn string_helpers_behave_exactly() {
    assert!(str_eq("abc", "abc"));
    assert!(!str_eq("abc", "abd"));
    assert!(!str_eq("abc", "ab"));
    assert!(str_eq("", ""));
    assert!(str_starts_with("https://a", "https://"));
    assert!(!str_starts_with("http://a", "https://"));
    assert!(str_starts_with("abc", ""));
    assert!(!str_starts_with("ab", "abc"));
    assert!(str_contains("watch on youtube.com now", "youtube.com"));
    assert!(!str_contains("watch on youtube", "youtube.com"));
    assert!(str_contains("abc", ""));
    assert!(str_contains("abc", "abc"));
    assert!(!str_contains("", "a"));
}

#[test]
fn default_settings_match_expected_values() {
    let s = Settings::default();
    assert_eq!(s.download_path, "C:\\Users\\Lucas\\Desktop");
    assert_eq!(s.filename_template, "%(title)s.%(ext)s");
    assert_eq!(s.max_concurrent, 3);
    assert!(s.enable_notifications);
    assert!(s.enable_sound);
    assert!(s.check_duplicates);
}

#[test]
fn settings_manager_round_trip() {
    let mut m = SettingsManager::new(Settings::default());
    assert_eq!(m.get().max_concurrent, 3);
    let mut s = m.get();
    s.max_concurrent = 7;
    s.check_duplicates = false;
    m.update(s);
    let got = m.get();
    assert_eq!(got.max_concurrent, 7);
    assert!(!got.check_duplicates);
    assert_eq!(got.filename_template, "%(title)s.%(ext)s");
}
