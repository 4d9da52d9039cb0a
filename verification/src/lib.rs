//! Rules of a self-hosted media tracker: consumption events, the progress
//! tracker that writes them, the status derived from them, and the
//! reconciliation of imported histories into the same shape.

pub mod decimal;
pub mod entities;
pub mod enums;
pub mod importer;
pub mod media;
pub mod models;
pub mod providers;
pub mod router;
pub mod text;
pub mod time;
