//! Plain data of the serving layer.
//!
//! The serving layer itself (routing, database queries, response encoding)
//! is an external collaborator; only its typed values live here: the error
//! categories of its responses and the map-tile coordinate its endpoints
//! take.

use vstd::prelude::*;

verus! {

/// Application error category of a response body.
#[derive(Debug, Clone, Copy, PartialEq, Eq, Structural)]
pub enum AppError {
    /// An error needing no further explanation.
    Unspecified,
    /// A database error.
    Database,
    /// The requested zoom level is below the accident-display threshold.
    AccidentZoomLevel,
}

/// Category and message of one application error.
#[derive(Debug, Clone)]
pub struct AppErrorContent {
    /// Error category.
    pub app_error: AppError,
    /// Human-readable message.
    pub message: String,
}

/// An error response of the serving application.
#[derive(Debug, Clone)]
pub enum AppErrorResponse {
    /// The request was invalid.
    BadRequest(AppErrorContent),
    /// The server failed internally.
    InternalServerError(AppErrorContent),
}

impl AppErrorResponse {
    /// The HTTP status code the response is served with.
    pub fn status_code(&self) -> (r: u16)
        ensures
            self is BadRequest ==> r == 400,
            self is InternalServerError ==> r == 500,
    {
        match self {
            AppErrorResponse::BadRequest(_) => 400,
            AppErrorResponse::InternalServerError(_) => 500,
        }
    }

    /// The content the response carries.
    pub fn content(&self) -> (r: &AppErrorContent)
        ensures
            self is BadRequest ==> r == self->BadRequest_0,
            self is InternalServerError ==> r == self->InternalServerError_0,
    {
        match self {
            AppErrorResponse::BadRequest(content) => content,
            AppErrorResponse::InternalServerError(content) => content,
        }
    }
}

/// A map-tile coordinate: zoom level and tile indexes.
#[derive(Debug, Clone, Copy, PartialEq, Eq, Structural)]
pub struct TileCoordinate {
    /// Zoom level.
    pub z: u8,
    /// Tile index along the x axis.
    pub x: u32,
    /// Tile index along the y axis.
    pub y: u32,
}

} // verus!
