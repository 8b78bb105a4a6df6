//! Request construction for the releases part of a code-hosting REST API:
//! listing, creating, updating and deleting releases, generating release
//! notes, and listing and uploading release assets.
pub mod text;
pub mod request;
pub mod error;
pub mod releases;
pub mod assets;
