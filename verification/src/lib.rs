pub mod api;
pub mod routing;
pub mod server;
pub mod text;
pub mod wasm;
