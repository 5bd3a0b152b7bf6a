//! Core of a Linux launcher and updater for a Windows-only online game:
//! version files, patch lists, the ZiPatch format, login responses,
//! launch arguments, integrity manifests and the worker protocol.

pub mod account;
pub mod accounts;
pub mod bytes;
pub mod config;
pub mod credentials;
pub mod digest;
pub mod download;
pub mod entities;
pub mod error;
pub mod frontend;
pub mod game_detection;
pub mod integrity;
pub mod ipc;
pub mod launch_args;
pub mod login;
pub mod manifest;
pub mod numbers;
pub mod oauth;
pub mod otp;
pub mod patch;
pub mod ports;
pub mod process;
pub mod repositories;
pub mod runner;
pub mod search;
pub mod session;
pub mod text;
pub mod update;
pub mod version;
pub mod version_store;
pub mod worker;
pub mod zipatch;
pub mod zipatch_apply;
pub mod zipatch_layout;
pub mod zipatch_parser;
