//! The Yandex Music client. Alone among the providers it checks a new
//! credential against the service: `authenticate` stores the credential and
//! hands back the account-status request for the hosting layer to perform;
//! the reported outcome then keeps or discards it. The catalogue itself is
//! not wired up.

use vstd::prelude::*;
use vstd::string::StringExecFns;

use crate::config::opt_str_view;
use crate::providers::{demo_stream_url, ApiRequest, AuthStep, MusicProvider};
use crate::types::{ApiError, PlaylistInfo, ProviderType, TrackInfo};

verus! {

/// The base URL of the Yandex Music API.
pub open spec fn yandex_base_url() -> Seq<char> {
    "https://api.music.yandex.net"@
}

/// The endpoint polled to check a credential.
pub open spec fn account_status_endpoint() -> Seq<char> {
    "account/status"@
}

/// Yandex Music catalogue client.
#[derive(Debug)]
pub struct YandexProvider {
    token: Option<String>,
    base_url: String,
}

impl YandexProvider {
    /// The API base this client talks to.
    pub closed spec fn spec_base_url(&self) -> Seq<char> {
        self.base_url@
    }

    /// A fresh, unauthenticated client against the public API base.
    pub fn new() -> (p: YandexProvider)
        ensures
            p.token_view() is None,
            p.spec_base_url() == yandex_base_url(),
    {
        YandexProvider { token: None, base_url: "https://api.music.yandex.net".to_owned() }
    }

    /// The request for one API endpoint: its URL under the base, and the held
    /// credential as an `OAuth` authorization header. Refused, with nothing
    /// sent, while no credential is held.
    pub fn api_request(&self, endpoint: &str) -> (r: Result<ApiRequest, ApiError>)
        ensures
            self.token_view() matches Some(t) ==> (r matches Ok(q) && q.url@
                == self.spec_base_url() + "/"@ + endpoint@ && q.auth_header@ == "OAuth "@ + t),
            self.token_view() is None ==> (r matches Err(e) && e.code == 401 && e.message@
                == "Not authenticated"@),
    {
        match &self.token {
            None => Err(ApiError { code: 401, message: "Not authenticated".to_owned() }),
            Some(tok) => {
                let url = self.base_url.clone().concat("/").concat(endpoint);
                let header = "OAuth ".to_owned().concat(tok.as_str());
                proof {
                    assert(url@ =~= self.spec_base_url() + "/"@ + endpoint@);
                }
                Ok(ApiRequest { url, auth_header: header })
            },
        }
    }
}

impl MusicProvider for YandexProvider {
    closed spec fn token_view(&self) -> Option<Seq<char>> {
        opt_str_view(self.token)
    }

    open spec fn needs_network_verification(&self) -> bool {
        true
    }

    open spec fn stream_url_view(&self, track_id: Seq<char>) -> Seq<char> {
        demo_stream_url(ProviderType::Yandex)
    }

    fn authenticate(&mut self, token: String) -> (r: Result<AuthStep, ApiError>) {
        self.token = Some(token);
        match self.api_request("account/status") {
            Ok(req) => Ok(AuthStep::Verify(req)),
            // A credential was just stored, so the request is never refused.
            Err(e) => Err(e),
        }
    }

    fn confirm_authentication(&mut self, ok: bool) -> (r: Result<bool, ApiError>) {
        if ok {
            Ok(true)
        } else {
            self.token = None;
            Err(ApiError { code: 401, message: "Authentication failed".to_owned() })
        }
    }

    fn get_playlists(&self) -> (r: Result<Vec<PlaylistInfo>, ApiError>) {
        Ok(Vec::new())
    }

    fn get_playlist_tracks(&self, playlist_id: String) -> (r: Result<Vec<TrackInfo>, ApiError>) {
        let _ = playlist_id;
        Ok(Vec::new())
    }

    fn get_liked_tracks(&self) -> (r: Result<Vec<TrackInfo>, ApiError>) {
        Ok(Vec::new())
    }

    fn get_my_wave(&self) -> (r: Result<Vec<TrackInfo>, ApiError>) {
        Ok(Vec::new())
    }

    fn search_tracks(&self, query: String) -> (r: Result<Vec<TrackInfo>, ApiError>) {
        let _ = query;
        Ok(Vec::new())
    }

    fn get_track_url(&self, track_id: String) -> (r: Result<String, ApiError>) {
        let _ = track_id;
        Ok("https://www.soundhelix.com/examples/mp3/SoundHelix-Song-1.mp3".to_owned())
    }
}

} // verus!
