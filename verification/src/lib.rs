//! A small publishing service: accounts with salted password digests,
//! signed login claims, cookie sessions, and the answers its HTTP routes give.
pub mod text;
pub mod db;
pub mod auth;
pub mod common;
pub mod session;
pub mod rest;
