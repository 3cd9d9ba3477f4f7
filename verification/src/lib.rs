//! Session state of a single-window content browser.
//!
//! A fixed set of named rich-text panels is registered at startup and then
//! shown and hidden by commands; a calculator panel evaluates arithmetic
//! text into a running transcript; a settings panel holds two colors. The
//! user interface only queues commands: once per cycle the reconciler
//! applies them in arrival order, brings the render cache up to the panels
//! that are visible, and schedules the next cycle. Visibility, colors, and
//! the calculator's buffer and transcript survive a restart; content never
//! does, it comes from the manifest.
//!
//! - [`panel`], [`registry`]: the panels and their registry.
//! - [`render_cache`]: memoized rendering keyed by content.
//! - [`evaluator`], [`calculator`]: evaluation and the transcript.
//! - [`settings`]: the colors.
//! - [`session`]: the session state, the commands and the cycle.
//! - [`persist`]: saving a session and restarting from what was saved.
//! - [`laws`]: what holds across these operations, proved.

pub mod calculator;
pub mod evaluator;
pub mod laws;
pub mod panel;
pub mod persist;
pub mod registry;
pub mod render_cache;
pub mod session;
pub mod settings;
