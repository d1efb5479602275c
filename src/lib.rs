//! Hand-off of an offscreen rendering surface from a window to a worker, and
//! the relay that keeps parent, window and worker in step afterwards.
//!
//! Every context is modelled by plain values: resources are identifiers whose
//! owner is kept in a [`transport::Transport`], messages are
//! [`envelope::Envelope`]s, and the steps that need a browser or a GPU are
//! requests handed to the caller and outcomes handed back.
pub mod bootstrap;
pub mod bridge;
pub mod envelope;
pub mod frame;
mod ids;
pub mod inbox;
pub mod relay;
pub mod texture;
pub mod transport;
