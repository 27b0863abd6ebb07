//! Backend core of a desktop game launcher: the interactive OAuth2 sign-in
//! flow, the redirect listener's request parsing, PKCE checks, credential
//! storage, download progress accounting and the mod-search request shapes.

use vstd::prelude::*;

pub mod credential;
pub mod launcher;
pub mod mods;
pub mod pkce;
pub mod profile;
pub mod progress;
pub mod redirect;
pub mod sign_in;
mod text;

verus! {

} // verus!
