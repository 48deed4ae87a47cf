//! Core of a small HTTP façade over a fleet of remotely managed smart-lighting
//! devices.  The heart of the library is the device-directory cache: a
//! cache-aside protocol that serves the directory from a shared, TTL-bounded
//! cache when possible and falls through to the upstream vendor API otherwise,
//! together with the textual codec used for the cached payload, identifier
//! resolution over the directory, and the error taxonomy the HTTP layer maps
//! to status codes.  All network I/O (the cache backend and the upstream
//! client) lives outside this crate and is driven through the step types the
//! cache module exposes.

pub mod cache;
pub mod cli;
pub mod codec;
pub mod color;
pub mod controller;
pub mod device;
pub mod error;
pub mod health;
pub mod settings;

pub use cache::DirectoryCache;
pub use device::Device;
pub use device::DeviceState;
pub use device::Devices;
pub use error::DeviceRepoError;
pub use error::Error;
pub use settings::Settings;
