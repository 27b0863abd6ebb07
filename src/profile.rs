//! The player's public profile, as the profile endpoint returns it, and how
//! an answer of that endpoint is classified.

use vstd::prelude::*;

verus! {

/// Address of the profile endpoint (GET, bearer token).
pub const PROFILE_ENDPOINT: &'static str = "https://api.minecraftservices.com/minecraft/profile";

#[derive(Debug, Clone, PartialEq, Eq)]
pub struct PlayerSkin {
    pub id: String,
    pub state: String,
    pub url: String,
    pub variant: String,
}

#[derive(Debug, Clone, PartialEq, Eq)]
pub struct PlayerCape {
    pub id: String,
    pub state: String,
    pub url: String,
    pub alias: String,
}

#[derive(Debug, Clone, PartialEq, Eq)]
pub struct PlayerProfile {
    pub id: String,
    pub name: String,
    pub skins: Vec<PlayerSkin>,
    pub capes: Vec<PlayerCape>,
}

/// Why no profile came back.
#[derive(Debug, Clone, Copy, PartialEq, Eq, Structural)]
pub enum ProfileError {
    /// The token was rejected: the stored credential is stale and a new
    /// sign-in is needed.
    Unauthorized,
    /// Any other transport or parsing failure.
    FetchFailed,
}

/// What an HTTP status of the profile endpoint means.
pub open spec fn status_outcome(status: u16) -> Result<(), ProfileError> {
    if 200 <= status <= 299 {
        Ok(())
    } else if status == 401 {
        Err(ProfileError::Unauthorized)
    } else {
        Err(ProfileError::FetchFailed)
    }
}

/// Classifies the status of the profile endpoint's answer: success, a
/// rejected token, or another failure.
pub fn profile_status(status: u16) -> (r: Result<(), ProfileError>)
    ensures
        r == status_outcome(status),
{
    if 200 <= status && status <= 299 {
        Ok(())
    } else if status == 401 {
        Err(ProfileError::Unauthorized)
    } else {
        Err(ProfileError::FetchFailed)
    }
}

} // verus!
