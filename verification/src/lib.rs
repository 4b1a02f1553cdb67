//! Host-side core of a desktop shell: the supervisor that starts the bundled
//! sidecar process, and the command bridge through which the presentation
//! layer calls host logic.

pub mod bridge;
pub mod directory;
pub mod handlers;
pub mod payload;
pub mod resources;
pub mod schema;
pub mod sidecar;
pub mod supervisor;
pub mod text;
