//! Log-line filtering and rewriting for a process's output streams.
//!
//! A [`TransformerFactory`] is built once from optional filter/ignore/wrap
//! settings and then decides, line by line, whether a log line is forwarded
//! unchanged, dropped, or rewritten as a structured JSON envelope.

pub mod chars;
pub mod emf;
pub mod envelope;
pub mod pattern;
pub mod transformer;

pub use chars::starts_with;
pub use chars::str_starts_with;
pub use emf::is_embedded_metric_line;
pub use emf::is_structured_metric;
pub use envelope::wrap_line;
pub use envelope::wrapped_envelope;
pub use pattern::CompiledPattern;
pub use transformer::ConfigError;
pub use transformer::TransformerFactory;
