//! Request/response correlation between socket connections and a
//! single-threaded event loop.

pub mod api;
pub mod api_manager;
pub mod bridge;
pub mod codec;
pub mod connection;
pub mod dispatcher;
pub mod encoding;
pub mod icon;
pub mod message;
pub mod options;
pub mod pending;
pub mod text;
pub mod text_map;
pub mod version;
pub mod waiter;
pub mod webframe;

pub use version::get_pyorion_version;
