//! A content-addressed local cache of model artifacts: digests, incremental
//! hashing, the on-disk store layout, manifests, and the decisions that drive
//! a resumable, verified pull.
pub mod digest;
pub mod hasher;
pub mod store;
pub mod manifest;
pub mod pull;
pub mod download;
pub mod human;
pub mod llama;
pub mod run;
pub mod cli;
pub mod text;
