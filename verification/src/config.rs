//! Persisted application settings: the default volume and one credential per
//! provider. Reading and writing the on-disk file is the hosting layer's
//! business; this module owns the values and their bookkeeping.

use vstd::prelude::*;

use crate::audio::DEFAULT_VOLUME;
use crate::audio::VOLUME_MAX;
use crate::types::ProviderType;

verus! {

/// The character sequence an optional string holds, if any.
pub open spec fn opt_str_view(o: Option<String>) -> Option<Seq<char>> {
    match o {
        Some(s) => Some(s@),
        None => None,
    }
}

/// One credential slot per provider.
#[derive(Debug)]
pub struct TokenStore {
    yandex: Option<String>,
    spotify: Option<String>,
    soundcloud: Option<String>,
    lastfm: Option<String>,
}

impl TokenStore {
    /// The credential stored for `p`, if any.
    pub closed spec fn spec_token(&self, p: ProviderType) -> Option<Seq<char>> {
        match p {
            ProviderType::Yandex => opt_str_view(self.yandex),
            ProviderType::Spotify => opt_str_view(self.spotify),
            ProviderType::SoundCloud => opt_str_view(self.soundcloud),
            ProviderType::LastFm => opt_str_view(self.lastfm),
        }
    }

    /// A store with no credential in any slot.
    pub fn empty() -> (s: TokenStore)
        ensures
            forall|p: ProviderType| #[trigger] s.spec_token(p) is None,
    {
        TokenStore { yandex: None, spotify: None, soundcloud: None, lastfm: None }
    }

    /// The credential for `p`, if one is stored.
    pub fn get(&self, p: ProviderType) -> (r: Option<String>)
        ensures
            opt_str_view(r) == self.spec_token(p),
    {
        let slot = match p {
            ProviderType::Yandex => &self.yandex,
            ProviderType::Spotify => &self.spotify,
            ProviderType::SoundCloud => &self.soundcloud,
            ProviderType::LastFm => &self.lastfm,
        };
        match slot {
            Some(t) => Some(t.clone()),
            None => None,
        }
    }

    /// Store — or overwrite — the credential for `p`; every other slot is
    /// untouched.
    pub fn set(&mut self, p: ProviderType, token: String)
        ensures
            final(self).spec_token(p) == Some(token@),
            forall|q: ProviderType|
                q != p ==> #[trigger] final(self).spec_token(q) == old(self).spec_token(q),
    {
        match p {
            ProviderType::Yandex => {
                self.yandex = Some(token);
            },
            ProviderType::Spotify => {
                self.spotify = Some(token);
            },
            ProviderType::SoundCloud => {
                self.soundcloud = Some(token);
            },
            ProviderType::LastFm => {
                self.lastfm = Some(token);
            },
        }
    }
}

/// The application's persisted settings.
#[derive(Debug)]
pub struct AppConfig {
    /// Default output volume, in thousandths of full scale.
    pub default_volume: u32,
    /// Credentials held per provider.
    pub provider_tokens: TokenStore,
}

impl Default for AppConfig {
    /// The configuration used when nothing is stored on disk: default volume,
    /// no credentials.
    fn default() -> (c: AppConfig)
        ensures
            c.default_volume == DEFAULT_VOLUME,
            forall|p: ProviderType| #[trigger] c.provider_tokens.spec_token(p) is None,
    {
        AppConfig { default_volume: DEFAULT_VOLUME, provider_tokens: TokenStore::empty() }
    }
}

impl AppConfig {
    /// Whether the settings are on scale.
    pub open spec fn inv(&self) -> bool {
        self.default_volume <= VOLUME_MAX
    }

    /// The credential for `provider`, if one is stored.
    pub fn get_token(&self, provider: ProviderType) -> (r: Option<String>)
        ensures
            opt_str_view(r) == self.provider_tokens.spec_token(provider),
    {
        self.provider_tokens.get(provider)
    }

    /// Store — or overwrite — the credential for `provider`. Persisting the
    /// changed settings to disk is the hosting layer's step afterwards.
    pub fn set_token(&mut self, provider: ProviderType, token: String)
        ensures
            final(self).provider_tokens.spec_token(provider) == Some(token@),
            forall|q: ProviderType|
                q != provider ==> #[trigger] final(self).provider_tokens.spec_token(q) == old(
                    self,
                ).provider_tokens.spec_token(q),
            final(self).default_volume == old(self).default_volume,
    {
        self.provider_tokens.set(provider, token);
    }
}

} // verus!
