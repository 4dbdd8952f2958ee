//! Parsers for the textual responses of an EZO-class RTD temperature sensor.
//!
//! The device answers each command with a short ASCII string terminated by a
//! single NUL byte. This crate validates the framing of such a buffer and
//! decodes the scale-query and logging-interval-query responses into typed
//! values; the error taxonomy distinguishes a broken frame from a reply that
//! does not match the expected grammar.

mod interval;
mod laws;
mod response;
mod scale;
mod utf8;

pub use interval::DataLoggerStorageIntervalResponse;
pub use interval::DataLoggerStorageIntervalSeconds;
pub use interval::all_digits;
pub use interval::decimal_value;
pub use interval::interval_of_text;
pub use interval::interval_parse_result;
pub use interval::interval_prefix;
pub use interval::is_digit;
pub use laws::lemma_error_taxonomy;
pub use laws::lemma_malformed_always_rejected;
pub use laws::lemma_parse_deterministic;
pub use laws::lemma_scale_grammar_exact;
pub use response::ErrorKind;
pub use response::nul_framed;
pub use response::response_text;
pub use response::text_of;
pub use response::well_formed_response;
pub use scale::TemperatureScale;
pub use scale::TemperatureScaleResponse;
pub use scale::scale_literal;
pub use scale::scale_of_text;
pub use scale::scale_parse_result;
pub use utf8::check_utf8;
pub use utf8::is_utf8;
