//! Shared data model: tracks, playlists, providers, playback states and the
//! error value the provider layer reports.

use vstd::prelude::*;

verus! {

/// Which music-catalog service a track or playlist belongs to.
#[derive(Debug, Clone, Copy, PartialEq, Eq, Hash, Structural)]
pub enum ProviderType {
    Yandex,
    Spotify,
    SoundCloud,
    LastFm,
}

/// The display name of a provider, as a character sequence.
pub open spec fn provider_display_name(p: ProviderType) -> Seq<char> {
    match p {
        ProviderType::Yandex => "Yandex"@,
        ProviderType::Spotify => "Spotify"@,
        ProviderType::SoundCloud => "SoundCloud"@,
        ProviderType::LastFm => "Last.fm"@,
    }
}

impl ProviderType {
    /// Human-readable name of the provider.
    pub fn display_name(&self) -> (r: String)
        ensures
            r@ == provider_display_name(*self),
    {
        match self {
            ProviderType::Yandex => "Yandex".to_owned(),
            ProviderType::Spotify => "Spotify".to_owned(),
            ProviderType::SoundCloud => "SoundCloud".to_owned(),
            ProviderType::LastFm => "Last.fm".to_owned(),
        }
    }
}

/// One playable track. A value of this type is immutable once built and is
/// owned by whichever structure currently references it.
#[derive(Debug, PartialEq)]
pub struct TrackInfo {
    /// Identifier, unique within its provider.
    pub id: String,
    pub title: String,
    pub artist: String,
    pub album: Option<String>,
    /// Track length in milliseconds, when the provider reports one.
    pub duration_ms: Option<u64>,
    pub provider: ProviderType,
    /// Pre-resolved stream URL, when one is already known.
    pub stream_url: Option<String>,
    pub artwork_url: Option<String>,
}

impl Clone for TrackInfo {
    /// A clone is equal, field for field, to the original.
    fn clone(&self) -> (res: Self)
        ensures
            res == *self,
    {
        TrackInfo {
            id: self.id.clone(),
            title: self.title.clone(),
            artist: self.artist.clone(),
            album: clone_opt_string(&self.album),
            duration_ms: self.duration_ms,
            provider: self.provider,
            stream_url: clone_opt_string(&self.stream_url),
            artwork_url: clone_opt_string(&self.artwork_url),
        }
    }
}

/// Clones an optional string; the copy equals the original.
fn clone_opt_string(s: &Option<String>) -> (res: Option<String>)
    ensures
        res == *s,
{
    match s {
        Some(inner) => Some(inner.clone()),
        None => None,
    }
}

/// One playlist of a provider's catalogue.
#[derive(Debug, Clone, PartialEq)]
pub struct PlaylistInfo {
    pub id: String,
    pub title: String,
    pub description: Option<String>,
    pub track_count: u32,
    pub provider: ProviderType,
    pub artwork_url: Option<String>,
}

/// Lifecycle state of the playback engine. Exactly one value at any instant,
/// mutated only by the engine.
#[derive(Debug, Clone, Copy, PartialEq, Eq, Structural)]
pub enum PlaybackState {
    Stopped,
    Playing,
    Paused,
    Loading,
}

/// A snapshot of the whole player, as handed to a UI layer.
#[derive(Debug)]
pub struct PlayerState {
    pub current_track: Option<TrackInfo>,
    pub state: PlaybackState,
    /// Playback position in milliseconds; always zero in this design.
    pub position_ms: u64,
    /// Volume in thousandths of full scale.
    pub volume: u32,
    pub queue: Vec<TrackInfo>,
    pub current_index: usize,
}

/// A credential held for one provider.
#[derive(Debug, Clone)]
pub struct AuthInfo {
    pub provider: ProviderType,
    pub token: String,
    /// Expiry instant as seconds since the Unix epoch, when known.
    pub expires_at: Option<i64>,
}

/// The combined outcome of a catalogue search.
#[derive(Debug)]
pub struct SearchResult {
    pub tracks: Vec<TrackInfo>,
    pub playlists: Vec<PlaylistInfo>,
    pub total_results: u32,
}

/// An error reported by a provider: a numeric code and a message.
#[derive(Debug, PartialEq)]
pub struct ApiError {
    pub code: u32,
    pub message: String,
}

impl Clone for ApiError {
    /// A clone is equal, field for field, to the original.
    fn clone(&self) -> (res: Self)
        ensures
            res == *self,
    {
        ApiError { code: self.code, message: self.message.clone() }
    }
}

} // verus!
