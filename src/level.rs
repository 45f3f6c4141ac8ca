use vstd::prelude::*;

use crate::error::MetricsError;

verus! {

#[verifier::external_type_specification]
#[verifier::external_body]
pub struct ExParseLevelError(tracing::metadata::ParseLevelError);

/// The severity levels of the diagnostic stream, from the most verbose.
#[derive(Debug, Clone, Copy, PartialEq, Eq, Structural)]
pub enum Severity {
    Trace,
    Debug,
    Info,
    Warn,
    Error,
}

/// The severity that one of the five level names, in lower case, stands for.
pub open spec fn named_level(s: Seq<char>) -> Option<Severity> {
    if s == seq!['t', 'r', 'a', 'c', 'e'] {
        Some(Severity::Trace)
    } else if s == seq!['d', 'e', 'b', 'u', 'g'] {
        Some(Severity::Debug)
    } else if s == seq!['i', 'n', 'f', 'o'] {
        Some(Severity::Info)
    } else if s == seq!['w', 'a', 'r', 'n'] {
        Some(Severity::Warn)
    } else if s == seq!['e', 'r', 'r', 'o', 'r'] {
        Some(Severity::Error)
    } else {
        None
    }
}

/// Relies on `FromStr for tracing::Level`: it accepts the five level names
/// in any ASCII case and the numbers 1 to 5, and refuses the empty string.
#[verifier::external_body]
fn parse_tracing_level(s: &str) -> (r: Result<Severity, tracing::metadata::ParseLevelError>)
    ensures
        named_level(s@) is Some ==> r is Ok && r->Ok_0 == named_level(s@)->Some_0,
        s@.len() == 0 ==> r is Err,
{
    match s.parse::<tracing::Level>() {
        Ok(tracing::Level::ERROR) => Ok(Severity::Error),
        Ok(tracing::Level::WARN) => Ok(Severity::Warn),
        Ok(tracing::Level::INFO) => Ok(Severity::Info),
        Ok(tracing::Level::DEBUG) => Ok(Severity::Debug),
        Ok(_) => Ok(Severity::Trace),
        Err(e) => Err(e),
    }
}

/// Whether `level` is one of the five level names, in lower case.
pub fn is_level_name(level: &str) -> (r: bool)
    ensures
        r == named_level(level@) is Some,
{
    let key = level.to_owned();
    proof {
        reveal_strlit("trace");
        reveal_strlit("debug");
        reveal_strlit("info");
        reveal_strlit("warn");
        reveal_strlit("error");
        assert("trace"@ =~= seq!['t', 'r', 'a', 'c', 'e']);
        assert("debug"@ =~= seq!['d', 'e', 'b', 'u', 'g']);
        assert("info"@ =~= seq!['i', 'n', 'f', 'o']);
        assert("warn"@ =~= seq!['w', 'a', 'r', 'n']);
        assert("error"@ =~= seq!['e', 'r', 'r', 'o', 'r']);
    }
    key == "trace".to_owned() || key == "debug".to_owned() || key == "info".to_owned() || key
        == "warn".to_owned() || key == "error".to_owned()
}

/// Reads the severity level of the diagnostic stream.
///
/// Only the five level names in lower case are accepted; anything else is
/// reported as `InvalidConfig` with the text that was given, also where the
/// level parser itself would take it.
pub fn parse_level(level: &str) -> (r: Result<Severity, MetricsError>)
    ensures
        r is Ok <==> named_level(level@) is Some,
        r is Ok ==> r->Ok_0 == named_level(level@)->Some_0,
        !(r is Ok) ==> (r matches Err(MetricsError::InvalidConfig(n)) && n@ == level@),
{
    if !is_level_name(level) {
        return Err(MetricsError::InvalidConfig(level.to_owned()));
    }
    match parse_tracing_level(level) {
        Ok(severity) => Ok(severity),
        Err(_) => Err(MetricsError::InvalidConfig(level.to_owned())),
    }
}

} // verus!
