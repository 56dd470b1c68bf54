//! The per-line decision pipeline: keep, drop, or rewrite a log line
//! according to an immutable configuration.

use vstd::prelude::*;

use crate::chars::starts_with;
use crate::chars::str_starts_with;
use crate::emf::is_embedded_metric_line;
use crate::emf::is_structured_metric;
use crate::envelope::wrap_line;
use crate::envelope::wrapped_envelope;
use crate::pattern::pattern_compiles;
use crate::pattern::pattern_matches;
use crate::pattern::CompiledPattern;

verus! {

/// The mathematical content of a configuration: each optional rule as the
/// text it was configured with.
pub ghost struct ConfigView {
    pub filter_by_prefix: Option<Seq<char>>,
    pub ignore_by_prefix: Option<Seq<char>>,
    pub filter_by_pattern: Option<Seq<char>>,
    pub ignore_by_pattern: Option<Seq<char>>,
    pub wrap_in_json_level: Option<Seq<char>>,
}

/// The text of an optional setting.
pub open spec fn opt_text(o: Option<String>) -> Option<Seq<char>> {
    match o {
        Some(s) => Some(s@),
        None => None,
    }
}

/// A configuration error: one of the two pattern settings does not compile.
/// Construction fails fast; there are no per-line errors.
#[derive(Clone, Copy, Debug, PartialEq, Eq, Structural)]
pub enum ConfigError {
    InvalidFilterPattern,
    InvalidIgnorePattern,
}

/// An immutable decision-function factory, built once from the optional
/// filter/ignore/wrap settings. Cloning it per stream is cheap and shares no
/// mutable state.
#[derive(Clone)]
pub struct TransformerFactory {
    filter_by_prefix: Option<String>,
    ignore_by_prefix: Option<String>,
    filter_by_pattern: Option<CompiledPattern>,
    ignore_by_pattern: Option<CompiledPattern>,
    wrap_in_json_level: Option<String>,
}

impl View for TransformerFactory {
    type V = ConfigView;

    closed spec fn view(&self) -> ConfigView {
        ConfigView {
            filter_by_prefix: opt_text(self.filter_by_prefix),
            ignore_by_prefix: opt_text(self.ignore_by_prefix),
            filter_by_pattern: match self.filter_by_pattern {
                Some(p) => Some(p@),
                None => None,
            },
            ignore_by_pattern: match self.ignore_by_pattern {
                Some(p) => Some(p@),
                None => None,
            },
            wrap_in_json_level: opt_text(self.wrap_in_json_level),
        }
    }
}

/// A line survives the configured rules when every present rule passes:
/// a filter prefix it starts with, an ignore prefix it does not start with,
/// a filter pattern it matches, an ignore pattern it does not match.
pub open spec fn survives(c: ConfigView, line: Seq<char>) -> bool {
    &&& (c.filter_by_prefix matches Some(p) ==> starts_with(line, p))
    &&& (c.ignore_by_prefix matches Some(p) ==> !starts_with(line, p))
    &&& (c.filter_by_pattern matches Some(p) ==> pattern_matches(p, line))
    &&& (c.ignore_by_pattern matches Some(p) ==> !pattern_matches(p, line))
}

/// The line is forwarded exactly as it came in: it is a structured metric
/// line, or it survives every rule and no wrap level is configured.
pub open spec fn keeps_line_unchanged(c: ConfigView, line: Seq<char>) -> bool {
    is_structured_metric(line) || (survives(c, line) && c.wrap_in_json_level is None)
}

impl TransformerFactory {
    /// Build a factory from the optional settings. The two pattern settings
    /// are compiled here; an invalid pattern fails construction, the filter
    /// pattern being checked first.
    pub fn new(
        filter_by_prefix: Option<String>,
        ignore_by_prefix: Option<String>,
        filter_by_pattern: Option<String>,
        ignore_by_pattern: Option<String>,
        wrap_in_json_level: Option<String>,
    ) -> (r: Result<TransformerFactory, ConfigError>)
        ensures
            r is Ok <==> ((filter_by_pattern matches Some(p) ==> pattern_compiles(p@))
                && (ignore_by_pattern matches Some(p) ==> pattern_compiles(p@))),
            r matches Ok(tf) ==> tf@ == (ConfigView {
                filter_by_prefix: opt_text(filter_by_prefix),
                ignore_by_prefix: opt_text(ignore_by_prefix),
                filter_by_pattern: opt_text(filter_by_pattern),
                ignore_by_pattern: opt_text(ignore_by_pattern),
                wrap_in_json_level: opt_text(wrap_in_json_level),
            }),
            r == Err::<TransformerFactory, ConfigError>(ConfigError::InvalidFilterPattern) <==> (
            filter_by_pattern matches Some(p) && !pattern_compiles(p@)),
            r == Err::<TransformerFactory, ConfigError>(ConfigError::InvalidIgnorePattern) <==> (
            (filter_by_pattern matches Some(p) ==> pattern_compiles(p@))
                && (ignore_by_pattern matches Some(p) && !pattern_compiles(p@))),
    {
        let filter_matcher = match &filter_by_pattern {
            Some(p) => match CompiledPattern::compile(p.as_str()) {
                Some(m) => Some(m),
                None => {
                    return Err(ConfigError::InvalidFilterPattern);
                },
            },
            None => None,
        };
        let ignore_matcher = match &ignore_by_pattern {
            Some(p) => match CompiledPattern::compile(p.as_str()) {
                Some(m) => Some(m),
                None => {
                    return Err(ConfigError::InvalidIgnorePattern);
                },
            },
            None => None,
        };
        Ok(TransformerFactory {
            filter_by_prefix,
            ignore_by_prefix,
            filter_by_pattern: filter_matcher,
            ignore_by_pattern: ignore_matcher,
            wrap_in_json_level,
        })
    }

    /// Decide one line: forward a structured metric line unchanged, drop a
    /// line that fails a rule, and wrap a surviving line when a wrap level is
    /// configured. The structured-metric exemption takes precedence over
    /// every rule.
    pub fn transform(&self, line: String) -> (r: Option<String>)
        ensures
            r is None <==> (!is_structured_metric(line@) && !survives(self@, line@)),
            keeps_line_unchanged(self@, line@) ==> r == Some(line),
            (!is_structured_metric(line@) && survives(self@, line@)
                && self@.wrap_in_json_level is Some) ==> (r is Some && wrapped_envelope(
                r.unwrap()@,
                self@.wrap_in_json_level.unwrap(),
                line@,
            )),
    {
        if is_embedded_metric_line(line.as_str()) {
            return Some(line);
        }
        if let Some(prefix) = &self.filter_by_prefix {
            if !str_starts_with(line.as_str(), prefix.as_str()) {
                return None;
            }
        }
        if let Some(prefix) = &self.ignore_by_prefix {
            if str_starts_with(line.as_str(), prefix.as_str()) {
                return None;
            }
        }
        if let Some(pattern) = &self.filter_by_pattern {
            if !pattern.is_match(line.as_str()) {
                return None;
            }
        }
        if let Some(pattern) = &self.ignore_by_pattern {
            if pattern.is_match(line.as_str()) {
                return None;
            }
        }
        if let Some(level) = &self.wrap_in_json_level {
            let wrapped = wrap_line(level.as_str(), line.as_str());
            return Some(wrapped);
        }
        Some(line)
    }
}

/// A structured metric line is exempt from every rule: whatever the
/// configuration, it is kept unchanged.
pub proof fn lemma_structured_metric_exempt(c: ConfigView, line: Seq<char>)
    requires
        is_structured_metric(line),
    ensures
        keeps_line_unchanged(c, line),
{
}

/// With no rules configured, every line survives and is kept unchanged.
pub proof fn lemma_unconfigured_is_identity(c: ConfigView, line: Seq<char>)
    requires
        c.filter_by_prefix is None,
        c.ignore_by_prefix is None,
        c.filter_by_pattern is None,
        c.ignore_by_pattern is None,
        c.wrap_in_json_level is None,
    ensures
        survives(c, line),
        keeps_line_unchanged(c, line),
{
}

/// A filter prefix alone: a line survives exactly when it starts with the
/// prefix, and a surviving line is kept unchanged.
pub proof fn lemma_filter_by_prefix(c: ConfigView, line: Seq<char>, p: Seq<char>)
    requires
        c.filter_by_prefix == Some(p),
        c.ignore_by_prefix is None,
        c.filter_by_pattern is None,
        c.ignore_by_pattern is None,
        c.wrap_in_json_level is None,
    ensures
        survives(c, line) <==> starts_with(line, p),
        starts_with(line, p) ==> keeps_line_unchanged(c, line),
{
}

/// An ignore prefix alone: a line survives exactly when it does not start
/// with the prefix, and a surviving line is kept unchanged.
pub proof fn lemma_ignore_by_prefix(c: ConfigView, line: Seq<char>, p: Seq<char>)
    requires
        c.ignore_by_prefix == Some(p),
        c.filter_by_prefix is None,
        c.filter_by_pattern is None,
        c.ignore_by_pattern is None,
        c.wrap_in_json_level is None,
    ensures
        survives(c, line) <==> !starts_with(line, p),
        !starts_with(line, p) ==> keeps_line_unchanged(c, line),
{
}

/// A filter pattern alone: a line survives exactly when it matches, and a
/// surviving line is kept unchanged.
pub proof fn lemma_filter_by_pattern(c: ConfigView, line: Seq<char>, p: Seq<char>)
    requires
        c.filter_by_pattern == Some(p),
        c.filter_by_prefix is None,
        c.ignore_by_prefix is None,
        c.ignore_by_pattern is None,
        c.wrap_in_json_level is None,
    ensures
        survives(c, line) <==> pattern_matches(p, line),
        pattern_matches(p, line) ==> keeps_line_unchanged(c, line),
{
}

/// An ignore pattern alone: a line survives exactly when it does not match,
/// and a surviving line is kept unchanged.
pub proof fn lemma_ignore_by_pattern(c: ConfigView, line: Seq<char>, p: Seq<char>)
    requires
        c.ignore_by_pattern == Some(p),
        c.filter_by_prefix is None,
        c.ignore_by_prefix is None,
        c.filter_by_pattern is None,
        c.wrap_in_json_level is None,
    ensures
        survives(c, line) <==> !pattern_matches(p, line),
        !pattern_matches(p, line) ==> keeps_line_unchanged(c, line),
{
}

/// All configured rules conjoin: survival is the conjunction of the present
/// rules, and any single failing rule alone decides the drop.
pub proof fn lemma_rules_conjoin(c: ConfigView, line: Seq<char>)
    ensures
        survives(c, line) <==> {
            &&& (c.filter_by_prefix matches Some(p) ==> starts_with(line, p))
            &&& (c.ignore_by_prefix matches Some(p) ==> !starts_with(line, p))
            &&& (c.filter_by_pattern matches Some(p) ==> pattern_matches(p, line))
            &&& (c.ignore_by_pattern matches Some(p) ==> !pattern_matches(p, line))
        },
        c.filter_by_prefix matches Some(p) && !starts_with(line, p) ==> !survives(c, line),
        c.ignore_by_prefix matches Some(p) && starts_with(line, p) ==> !survives(c, line),
        c.filter_by_pattern matches Some(p) && !pattern_matches(p, line) ==> !survives(c, line),
        c.ignore_by_pattern matches Some(p) && pattern_matches(p, line) ==> !survives(c, line),
{
}

} // verus!
