//! Errors of the controller side.
use crate::message::Id;
use vstd::prelude::*;

verus! {

#[verifier::external_type_specification]
#[verifier::external_body]
pub struct ExIoError(std::io::Error);

/// A failure of the controller.
#[derive(Debug)]
pub enum Error {
    Player(PlayerError),
    Wallpaper(WallpaperError),
}

/// A failure while addressing a wallpaper.
#[derive(Debug)]
pub enum WallpaperError {
    /// No player has this id.
    PlayerDontExist(Id),
}

/// A failure of a player.
#[derive(Debug)]
pub enum PlayerError {
    Io(std::io::Error),
    Verification(String),
}

impl From<PlayerError> for Error {
    fn from(e: PlayerError) -> (r: Error) {
        Error::Player(e)
    }
}

impl vstd::std_specs::convert::FromSpecImpl<PlayerError> for Error {
    open spec fn obeys_from_spec() -> bool {
        true
    }

    open spec fn from_spec(e: PlayerError) -> Error {
        Error::Player(e)
    }
}

impl From<WallpaperError> for Error {
    fn from(e: WallpaperError) -> (r: Error) {
        Error::Wallpaper(e)
    }
}

impl vstd::std_specs::convert::FromSpecImpl<WallpaperError> for Error {
    open spec fn obeys_from_spec() -> bool {
        true
    }

    open spec fn from_spec(e: WallpaperError) -> Error {
        Error::Wallpaper(e)
    }
}

impl From<std::io::Error> for PlayerError {
    fn from(e: std::io::Error) -> (r: PlayerError) {
        PlayerError::Io(e)
    }
}

impl vstd::std_specs::convert::FromSpecImpl<std::io::Error> for PlayerError {
    open spec fn obeys_from_spec() -> bool {
        true
    }

    open spec fn from_spec(e: std::io::Error) -> PlayerError {
        PlayerError::Io(e)
    }
}

} // verus!
