//! The SoundCloud client: it keeps a client identifier as its credential and
//! answers locally; no catalogue integration is wired up.

use vstd::prelude::*;

use crate::config::opt_str_view;
use crate::providers::{demo_stream_url, AuthStep, MusicProvider};
use crate::types::{ApiError, PlaylistInfo, ProviderType, TrackInfo};

verus! {

/// SoundCloud catalogue client.
#[derive(Debug)]
pub struct SoundCloudProvider {
    client_id: Option<String>,
}

impl SoundCloudProvider {
    /// A fresh, unauthenticated client.
    pub fn new() -> (p: SoundCloudProvider)
        ensures
            p.token_view() is None,
    {
        SoundCloudProvider { client_id: None }
    }
}

impl MusicProvider for SoundCloudProvider {
    closed spec fn token_view(&self) -> Option<Seq<char>> {
        opt_str_view(self.client_id)
    }

    open spec fn needs_network_verification(&self) -> bool {
        false
    }

    open spec fn stream_url_view(&self, track_id: Seq<char>) -> Seq<char> {
        demo_stream_url(ProviderType::SoundCloud)
    }

    fn authenticate(&mut self, token: String) -> (r: Result<AuthStep, ApiError>) {
        self.client_id = Some(token);
        Ok(AuthStep::Done(true))
    }

    fn confirm_authentication(&mut self, ok: bool) -> (r: Result<bool, ApiError>) {
        if ok {
            Ok(true)
        } else {
            self.client_id = None;
            Err(ApiError { code: 401, message: "Authentication failed".to_owned() })
        }
    }

    fn get_playlists(&self) -> (r: Result<Vec<PlaylistInfo>, ApiError>) {
        Ok(Vec::new())
    }

    fn get_playlist_tracks(&self, playlist_id: String) -> (r: Result<Vec<TrackInfo>, ApiError>) {
        let _ = playlist_id;
        Ok(Vec::new())
    }

    fn get_liked_tracks(&self) -> (r: Result<Vec<TrackInfo>, ApiError>) {
        Ok(Vec::new())
    }

    fn get_my_wave(&self) -> (r: Result<Vec<TrackInfo>, ApiError>) {
        Ok(Vec::new())
    }

    fn search_tracks(&self, query: String) -> (r: Result<Vec<TrackInfo>, ApiError>) {
        let _ = query;
        Ok(Vec::new())
    }

    fn get_track_url(&self, track_id: String) -> (r: Result<String, ApiError>) {
        let _ = track_id;
        Ok("https://www.soundhelix.com/examples/mp3/SoundHelix-Song-3.mp3".to_owned())
    }
}

} // verus!
