//! Settings persistence and environment inspection for a desktop upload tool.
//!
//! The crate holds the rules of the application's backend as plain functions
//! on plain values: the settings schema and its defaults, the stored form of
//! a settings record, loading and saving against a key-value store, the
//! credential check, and the two capability reports. Reading the process
//! environment, talking to the user interface and writing files are left to
//! the caller.

pub mod greeting;
pub mod probe;
pub mod record;
pub mod settings;
pub mod store;

pub use greeting::greet;
pub use probe::{detect_display_server, test_gpu_capabilities, DisplayEnvironment};
pub use probe::{GDK_BACKEND, WAYLAND_DISPLAY, WEBKIT_DISABLE_COMPOSITING_MODE, XDG_SESSION_TYPE};
pub use record::{Field, Record, Value};
pub use settings::{validate_r2_connection, AppSettings};
pub use store::{load_settings, save_settings, MemoryStore, StoreError};
pub use store::{SETTINGS_KEY, STORE_FILE};
