use music_player::audio::DEFAULT_VOLUME;
use music_player::config::AppConfig;
use music_player::types::ProviderType;

#[test]
fn default_config_has_default_volume_and_no_tokens() {
    let c = AppConfig::default();
    assert_eq!(c.default_volume, DEFAULT_VOLUME);
    for p in [
        ProviderType::Yandex,
        ProviderType::Spotify,
        ProviderType::SoundCloud,
        ProviderType::LastFm,
    ] {
        assert!(c.get_token(p).is_none());
    }
}

#[test]
fn set_token_stores_for_one_provider_only() {
    let mut c = AppConfig::default();
    c.set_token(ProviderType::Spotify, "sample-token".to_string());
    assert_eq!(c.get_token(ProviderType::Spotify).as_deref(), Some("sample-token"));
    assert!(c.get_token(ProviderType::Yandex).is_none());
    assert!(c.get_token(ProviderType::SoundCloud).is_none());
    assert!(c.get_token(ProviderType::LastFm).is_none());
    assert_eq!(c.default_volume, DEFAULT_VOLUME);
}

#[test]
fn set_token_overwrites() {
    let mut c = AppConfig::default();
    c.set_token(ProviderType::Yandex, "first".to_string());
    c.set_token(ProviderType::Yandex, "second".to_string());
    assert_eq!(c.get_token(ProviderType::Yandex).as_deref(), Some("second"));
}
