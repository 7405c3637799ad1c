//! What other programs can ask of the token manager.
use vstd::prelude::*;

verus! {

pub type TokenError = ();

/// Hands out the access tokens of the providers.
pub trait TokenManager {
    fn get_youtube_token(&self) -> Result<String, TokenError>;

    fn get_spotify_token(&self) -> Result<String, TokenError>;
}

}
