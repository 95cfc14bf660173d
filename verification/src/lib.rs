//! Server-side suspense for streamed HTML responses: placeholders that are
//! rendered into the document right away, and replacement templates that are
//! streamed after the document once the suspended work has finished.
//!
//! This crate holds what a response computes: the markup of placeholders,
//! replacements, the swapping script and the panic page, the first chunk of
//! the stream, and what a finished task sends.

pub mod decimal;
pub mod format;
pub mod html;
pub mod markup;
pub mod options;
pub mod stream;
pub mod suspense;
pub mod task;
mod text;

pub use decimal::decimal_string;
pub use format::{
    default_panic_renderer, html_escape, panic_payload_to_string, render_global_script,
    render_panic, render_placeholder, render_replacement, PanicPayload,
};
pub use html::Html;
pub use options::ColumboOptions;
pub use stream::{initial_chunk, DocumentHead};
pub use suspense::Suspense;
pub use task::{replacement_for, task_outcome, TaskOutcome};
