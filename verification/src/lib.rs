//! Backend lifecycle and window/tray orchestration for a desktop shell that
//! supervises a companion backend service.
//!
//! The crate holds the decision logic of the shell: resolving the backend
//! endpoint from environment values, deciding whether to spawn the backend,
//! waiting for its TCP listener with a bounded poll budget, the exit-intent
//! and window-close state machine, tray menu dispatch with its popup debounce,
//! and the attachment-saving rules (filename sanitization, collision-avoiding
//! names, base64 decoding). The surrounding process, network and window
//! plumbing lives outside the library and hands plain values in and out.

pub mod attachment;
pub mod endpoint;
pub mod exit_intent;
pub mod readiness;
pub mod strutil;
pub mod supervisor;
pub mod tray;
pub mod window;
