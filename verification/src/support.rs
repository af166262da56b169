//! Reports of errors that the front end ran into and could not explain.

use crate::error::BambooError;
use vstd::prelude::*;
use vstd::string::StringExecFns;

verus! {

/// What the front end sends when an error showed up that it did not expect:
/// where it was, and the error the server had answered with.
#[derive(Clone, Debug, PartialEq, Eq)]
pub struct GlitchTipErrorRequest {
    pub page: String,
    pub form: String,
    pub full_url: String,
    pub bamboo_error: BambooError,
}

/// How grave what is reported is.
#[derive(Clone, Copy, Debug, PartialEq, Eq, Structural)]
pub enum Level {
    Debug,
    Info,
    Warning,
    Error,
    Fatal,
}

/// A report for the error tracker: a message, and two contexts of keys and
/// values.
#[derive(Clone, Debug, PartialEq, Eq)]
pub struct ErrorReport {
    pub message: String,
    pub level: Level,
    pub logger: String,
    /// Where the error showed up.
    pub base_data: Vec<(String, String)>,
    /// The error the server had answered with.
    pub bamboo_error: Vec<(String, String)>,
}

/// A key and its value as plain text.
pub open spec fn entry(pair: (String, String)) -> (Seq<char>, Seq<char>) {
    (pair.0@, pair.1@)
}

/// The context that says where the error showed up.
pub open spec fn base_data_of(body: GlitchTipErrorRequest) -> Seq<(Seq<char>, Seq<char>)> {
    seq![("form"@, body.form@), ("page"@, body.page@), ("full_url"@, body.full_url@)]
}

/// The context that holds the error the server had answered with.
pub open spec fn bamboo_error_of(body: GlitchTipErrorRequest) -> Seq<(Seq<char>, Seq<char>)> {
    seq![
        ("entity_type"@, body.bamboo_error.entity_type@),
        ("error_type"@, body.bamboo_error.error_type.name()),
        ("message"@, body.bamboo_error.message@),
    ]
}

fn pair(key: &str, value: &str) -> (made: (String, String))
    ensures
        entry(made) == (key@, value@),
{
    (String::from_str(key), String::from_str(value))
}

/// The report to hand to the error tracker for what the front end sent.
pub fn glitchtip_report(body: &GlitchTipErrorRequest) -> (report: ErrorReport)
    ensures
        report.message@ == "Unknown error occurred"@,
        report.level == Level::Error,
        report.logger@ == "bamboo-web"@,
        report.base_data@.map_values(|pair: (String, String)| entry(pair)) == base_data_of(*body),
        report.bamboo_error@.map_values(|pair: (String, String)| entry(pair)) == bamboo_error_of(
            *body,
        ),
{
    let mut base_data: Vec<(String, String)> = Vec::new();
    base_data.push(pair("form", body.form.as_str()));
    base_data.push(pair("page", body.page.as_str()));
    base_data.push(pair("full_url", body.full_url.as_str()));
    let error_type = body.bamboo_error.error_type.to_string();
    let mut bamboo_error: Vec<(String, String)> = Vec::new();
    bamboo_error.push(pair("entity_type", body.bamboo_error.entity_type.as_str()));
    bamboo_error.push(pair("error_type", error_type.as_str()));
    bamboo_error.push(pair("message", body.bamboo_error.message.as_str()));
    proof {
        assert(base_data@.map_values(|pair: (String, String)| entry(pair)) =~= base_data_of(*body));
        assert(bamboo_error@.map_values(|pair: (String, String)| entry(pair)) =~= bamboo_error_of(
            *body,
        ));
    }
    ErrorReport {
        message: String::from_str("Unknown error occurred"),
        level: Level::Error,
        logger: String::from_str("bamboo-web"),
        base_data,
        bamboo_error,
    }
}

} // verus!
