pub mod config;
pub mod grpc;
pub mod jwt;
pub mod oidc;
pub mod store;
pub mod text;
pub mod web;
