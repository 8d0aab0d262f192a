//! Serialization and replication core of the Tephrite renderer.
#![allow(unused_imports)]

pub mod native;
pub mod fast_io;
pub mod fast_ser;
pub mod shared_buffer;
pub mod session;
pub mod transcript;
pub mod mesh;
pub mod gizmo;
pub mod transcript_writer;
pub mod text;
pub mod remote_control;
pub mod scene_api;
pub mod interactor;
pub mod use_cases;
pub mod property;
pub mod controls;
pub mod replication;
pub mod registry;
pub mod reader;
pub mod writer;
pub mod assets;
pub mod timing;
pub mod render_watch;
