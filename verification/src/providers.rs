//! The catalogue providers: a closed set of services behind one capability
//! trait, and the manager that dispatches to them by `ProviderType`.
//!
//! Only the decisions live here. Where a provider needs a network round trip
//! — today only the credential check of the Yandex client — the method hands
//! back the request to perform as a plain value, and the hosting layer
//! reports the outcome through `confirm_authentication`.

use vstd::prelude::*;

use crate::types::{ApiError, PlaylistInfo, ProviderType, TrackInfo};

pub mod lastfm;
pub mod soundcloud;
pub mod spotify;
pub mod yandex;

use lastfm::LastFmProvider;
use soundcloud::SoundCloudProvider;
use spotify::SpotifyProvider;
use yandex::YandexProvider;

verus! {

/// An HTTP request a provider asks the hosting layer to perform.
#[derive(Debug, Clone, PartialEq)]
pub struct ApiRequest {
    pub url: String,
    /// Value for the `Authorization` header.
    pub auth_header: String,
}

/// How far `authenticate` got on its own.
#[derive(Debug, Clone, PartialEq)]
pub enum AuthStep {
    /// Authentication finished locally with this outcome.
    Done(bool),
    /// The credential is stored provisionally; the hosting layer must perform
    /// this request and report back through `confirm_authentication`.
    Verify(ApiRequest),
}

/// The stream URL each provider resolves while no catalogue integration is
/// wired up: one royalty-free demonstration track per service.
pub open spec fn demo_stream_url(p: ProviderType) -> Seq<char> {
    match p {
        ProviderType::Yandex => "https://www.soundhelix.com/examples/mp3/SoundHelix-Song-1.mp3"@,
        ProviderType::Spotify => "https://www.soundhelix.com/examples/mp3/SoundHelix-Song-2.mp3"@,
        ProviderType::SoundCloud => "https://www.soundhelix.com/examples/mp3/SoundHelix-Song-3.mp3"@,
        ProviderType::LastFm => "https://www.soundhelix.com/examples/mp3/SoundHelix-Song-4.mp3"@,
    }
}

/// What one music-catalog service can do for the player. Every provider
/// stores at most one credential; the catalogue methods answer from it
/// without further state.
pub trait MusicProvider: Sized {
    /// The credential this provider currently holds.
    spec fn token_view(&self) -> Option<Seq<char>>;

    /// Whether authentication must be confirmed by a network round trip.
    spec fn needs_network_verification(&self) -> bool;

    /// The stream URL this provider resolves for a track identifier.
    spec fn stream_url_view(&self, track_id: Seq<char>) -> Seq<char>;

    /// Accept a credential. On success it is stored; a provider that cannot
    /// check it locally answers `Verify` with the request whose outcome the
    /// caller must feed to `confirm_authentication`.
    fn authenticate(&mut self, token: String) -> (r: Result<AuthStep, ApiError>)
        ensures
            r is Ok ==> final(self).token_view() == Some(token@),
            r matches Ok(s) ==> ((s is Verify) <==> old(self).needs_network_verification()),
            r matches Ok(AuthStep::Done(b)) ==> b,
            r is Err ==> final(self).token_view() == old(self).token_view(),
    ;

    /// Report the outcome of the verification request. Failure discards the
    /// provisional credential and is an error; success keeps it.
    fn confirm_authentication(&mut self, ok: bool) -> (r: Result<bool, ApiError>)
        ensures
            ok ==> (r matches Ok(b) && b && final(self).token_view() == old(self).token_view()),
            !ok ==> r is Err && final(self).token_view() is None,
    ;

    /// The user's playlists. No provider has a catalogue integration wired
    /// up, so the list is empty.
    fn get_playlists(&self) -> (r: Result<Vec<PlaylistInfo>, ApiError>)
        ensures
            r matches Ok(v) && v@.len() == 0,
    ;

    /// The tracks of one playlist; empty for the same reason.
    fn get_playlist_tracks(&self, playlist_id: String) -> (r: Result<Vec<TrackInfo>, ApiError>)
        ensures
            r matches Ok(v) && v@.len() == 0,
    ;

    /// The user's liked tracks; empty for the same reason.
    fn get_liked_tracks(&self) -> (r: Result<Vec<TrackInfo>, ApiError>)
        ensures
            r matches Ok(v) && v@.len() == 0,
    ;

    /// The provider's recommendation feed; empty for the same reason.
    fn get_my_wave(&self) -> (r: Result<Vec<TrackInfo>, ApiError>)
        ensures
            r matches Ok(v) && v@.len() == 0,
    ;

    /// Search the catalogue; empty for the same reason.
    fn search_tracks(&self, query: String) -> (r: Result<Vec<TrackInfo>, ApiError>)
        ensures
            r matches Ok(v) && v@.len() == 0,
    ;

    /// Resolve the fetchable stream URL for a track identifier.
    fn get_track_url(&self, track_id: String) -> (r: Result<String, ApiError>)
        ensures
            r matches Ok(u) && u@ == self.stream_url_view(track_id@),
    ;
}

/// All four providers, dispatched by `ProviderType`.
#[derive(Debug)]
pub struct ProviderManager {
    yandex: YandexProvider,
    spotify: SpotifyProvider,
    soundcloud: SoundCloudProvider,
    lastfm: LastFmProvider,
}

impl ProviderManager {
    /// The credential held for `p`, if any.
    pub closed spec fn token_of(&self, p: ProviderType) -> Option<Seq<char>> {
        match p {
            ProviderType::Yandex => self.yandex.token_view(),
            ProviderType::Spotify => self.spotify.token_view(),
            ProviderType::SoundCloud => self.soundcloud.token_view(),
            ProviderType::LastFm => self.lastfm.token_view(),
        }
    }

    /// A manager with every provider fresh and unauthenticated.
    pub fn new() -> (m: ProviderManager)
        ensures
            forall|p: ProviderType| #[trigger] m.token_of(p) is None,
    {
        ProviderManager {
            yandex: YandexProvider::new(),
            spotify: SpotifyProvider::new(),
            soundcloud: SoundCloudProvider::new(),
            lastfm: LastFmProvider::new(),
        }
    }

    /// Hand `token` to `provider`. Exactly the Yandex client asks for a
    /// network verification; the others finish locally. No other provider's
    /// credential is touched.
    pub fn authenticate(&mut self, provider: ProviderType, token: String) -> (r: Result<
        AuthStep,
        ApiError,
    >)
        ensures
            r is Ok ==> final(self).token_of(provider) == Some(token@),
            r matches Ok(s) ==> ((s is Verify) <==> provider is Yandex),
            r is Err ==> final(self).token_of(provider) == old(self).token_of(provider),
            forall|q: ProviderType|
                q != provider ==> #[trigger] final(self).token_of(q) == old(self).token_of(q),
    {
        match provider {
            ProviderType::Yandex => self.yandex.authenticate(token),
            ProviderType::Spotify => self.spotify.authenticate(token),
            ProviderType::SoundCloud => self.soundcloud.authenticate(token),
            ProviderType::LastFm => self.lastfm.authenticate(token),
        }
    }

    /// Report the outcome of a provider's verification request: failure
    /// discards its provisional credential and is an error.
    pub fn confirm_authentication(&mut self, provider: ProviderType, ok: bool) -> (r: Result<
        bool,
        ApiError,
    >)
        ensures
            ok ==> (r matches Ok(b) && b && final(self).token_of(provider) == old(self).token_of(
                provider,
            )),
            !ok ==> r is Err && final(self).token_of(provider) is None,
            forall|q: ProviderType|
                q != provider ==> #[trigger] final(self).token_of(q) == old(self).token_of(q),
    {
        match provider {
            ProviderType::Yandex => self.yandex.confirm_authentication(ok),
            ProviderType::Spotify => self.spotify.confirm_authentication(ok),
            ProviderType::SoundCloud => self.soundcloud.confirm_authentication(ok),
            ProviderType::LastFm => self.lastfm.confirm_authentication(ok),
        }
    }

    /// The user's playlists at `provider`; empty while no catalogue
    /// integration is wired up.
    pub fn get_playlists(&self, provider: ProviderType) -> (r: Result<Vec<PlaylistInfo>, ApiError>)
        ensures
            r matches Ok(v) && v@.len() == 0,
    {
        match provider {
            ProviderType::Yandex => self.yandex.get_playlists(),
            ProviderType::Spotify => self.spotify.get_playlists(),
            ProviderType::SoundCloud => self.soundcloud.get_playlists(),
            ProviderType::LastFm => self.lastfm.get_playlists(),
        }
    }

    /// The tracks of one playlist at `provider`; empty for the same reason.
    pub fn get_playlist_tracks(&self, provider: ProviderType, playlist_id: String) -> (r: Result<
        Vec<TrackInfo>,
        ApiError,
    >)
        ensures
            r matches Ok(v) && v@.len() == 0,
    {
        match provider {
            ProviderType::Yandex => self.yandex.get_playlist_tracks(playlist_id),
            ProviderType::Spotify => self.spotify.get_playlist_tracks(playlist_id),
            ProviderType::SoundCloud => self.soundcloud.get_playlist_tracks(playlist_id),
            ProviderType::LastFm => self.lastfm.get_playlist_tracks(playlist_id),
        }
    }

    /// The user's liked tracks at `provider`; empty for the same reason.
    pub fn get_liked_tracks(&self, provider: ProviderType) -> (r: Result<Vec<TrackInfo>, ApiError>)
        ensures
            r matches Ok(v) && v@.len() == 0,
    {
        match provider {
            ProviderType::Yandex => self.yandex.get_liked_tracks(),
            ProviderType::Spotify => self.spotify.get_liked_tracks(),
            ProviderType::SoundCloud => self.soundcloud.get_liked_tracks(),
            ProviderType::LastFm => self.lastfm.get_liked_tracks(),
        }
    }

    /// The recommendation feed at `provider`; empty for the same reason.
    pub fn get_my_wave(&self, provider: ProviderType) -> (r: Result<Vec<TrackInfo>, ApiError>)
        ensures
            r matches Ok(v) && v@.len() == 0,
    {
        match provider {
            ProviderType::Yandex => self.yandex.get_my_wave(),
            ProviderType::Spotify => self.spotify.get_my_wave(),
            ProviderType::SoundCloud => self.soundcloud.get_my_wave(),
            ProviderType::LastFm => self.lastfm.get_my_wave(),
        }
    }

    /// Search the catalogue at `provider`; empty for the same reason.
    pub fn search_tracks(&self, provider: ProviderType, query: String) -> (r: Result<
        Vec<TrackInfo>,
        ApiError,
    >)
        ensures
            r matches Ok(v) && v@.len() == 0,
    {
        match provider {
            ProviderType::Yandex => self.yandex.search_tracks(query),
            ProviderType::Spotify => self.spotify.search_tracks(query),
            ProviderType::SoundCloud => self.soundcloud.search_tracks(query),
            ProviderType::LastFm => self.lastfm.search_tracks(query),
        }
    }

    /// Resolve the fetchable stream URL for a track at `provider`.
    pub fn get_track_url(&self, provider: ProviderType, track_id: String) -> (r: Result<
        String,
        ApiError,
    >)
        ensures
            r matches Ok(u) && u@ == demo_stream_url(provider),
    {
        match provider {
            ProviderType::Yandex => self.yandex.get_track_url(track_id),
            ProviderType::Spotify => self.spotify.get_track_url(track_id),
            ProviderType::SoundCloud => self.soundcloud.get_track_url(track_id),
            ProviderType::LastFm => self.lastfm.get_track_url(track_id),
        }
    }
}

} // verus!
