//! The client's settings, as the environment gives them.
//!
//! Each setting is the value of one environment variable, or `None` where
//! the variable is not set. A missing setting takes its default.

use crate::triton_client::{text_view, TritonClient, TritonClientView};
use vstd::prelude::*;

verus! {

/// The endpoint of the backend, unless set otherwise.
pub open spec fn default_endpoint() -> Seq<char> {
    "http://triton:8001"@
}

/// The name of the model, unless set otherwise.
pub open spec fn default_model_name() -> Seq<char> {
    "face_verification"@
}

/// The name of the model's input, unless set otherwise.
pub open spec fn default_input_name() -> Seq<char> {
    "input"@
}

/// The name of the model's output, unless set otherwise.
pub open spec fn default_output_name() -> Seq<char> {
    "embedding"@
}

/// The value of a setting, or its default.
pub open spec fn or_default(value: Option<Seq<char>>, default: Seq<char>) -> Seq<char> {
    match value {
        Some(text) => text,
        None => default,
    }
}

/// Whether a setting switches TLS on: it does where it is one of `1`,
/// `true`, `TRUE` and `True`. Any other value, or none, leaves TLS off.
pub open spec fn tls_requested(value: Option<Seq<char>>) -> bool {
    match value {
        Some(text) => text == "1"@ || text == "true"@ || text == "TRUE"@ || text == "True"@,
        None => false,
    }
}

/// Whether `value` is the text `literal`.
fn is_text(value: &String, literal: &str) -> (r: bool)
    ensures
        r == (value@ == literal@),
{
    let other = literal.to_owned();
    *value == other
}

/// The value of a setting, or its default.
fn value_or(value: Option<String>, default: &str) -> (text: String)
    ensures
        text@ == or_default(text_view(value), default@),
{
    match value {
        Some(text) => text,
        None => default.to_owned(),
    }
}

/// Whether the setting for TLS switches it on.
pub fn tls_enabled(value: &Option<String>) -> (enabled: bool)
    ensures
        enabled == tls_requested(text_view(*value)),
{
    match value {
        Some(text) => is_text(text, "1") || is_text(text, "true") || is_text(text, "TRUE")
            || is_text(text, "True"),
        None => false,
    }
}

/// The client that the environment describes: the backend's endpoint, the
/// names of the model, of its input and of its output, the switch for TLS
/// and the path of the CA certificate.
pub fn client_from_environment(
    endpoint: Option<String>,
    model_name: Option<String>,
    input_name: Option<String>,
    output_name: Option<String>,
    use_tls: Option<String>,
    ca_certificate_path: Option<String>,
) -> (client: TritonClient)
    ensures
        client@ == (TritonClientView {
            endpoint: or_default(text_view(endpoint), default_endpoint()),
            model_name: or_default(text_view(model_name), default_model_name()),
            input_name: or_default(text_view(input_name), default_input_name()),
            output_name: or_default(text_view(output_name), default_output_name()),
            use_tls: tls_requested(text_view(use_tls)),
            ca_certificate_path: text_view(ca_certificate_path),
        }),
{
    let enabled = tls_enabled(&use_tls);
    TritonClient::new(
        value_or(endpoint, "http://triton:8001"),
        value_or(model_name, "face_verification"),
        value_or(input_name, "input"),
        value_or(output_name, "embedding"),
        enabled,
        ca_certificate_path,
    )
}

} // verus!
