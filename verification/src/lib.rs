//! Verified core of `randl`: a client that pulls random rewards from
//! federated, static-hosted repository lists.
pub mod archive;
pub mod text;
pub mod util;
pub mod repository;
pub mod download;
pub mod security;
pub mod pull;
