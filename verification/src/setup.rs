//! Decisions taken when the tracing subscriber is installed: the log buffer,
//! the filter level for a configured log level, and the filter itself.

use std::collections::VecDeque;
use tracing_subscriber::filter::Directive;
use tracing_subscriber::filter::EnvFilter;
use vstd::prelude::*;
use crate::layer::logging_enabled;

verus! {

/// The messages held by an optional buffer.
pub open spec fn buffer_view(buffer: Option<VecDeque<String>>) -> Option<Seq<String>> {
    match buffer {
        Some(q) => Some(q@),
        None => None,
    }
}

/// The buffer after initialisation: an absent buffer becomes an empty one,
/// an existing one is kept with its messages.
pub open spec fn initialized(buffer: Option<Seq<String>>) -> Option<Seq<String>> {
    match buffer {
        Some(q) => Some(q),
        None => Some(Seq::empty()),
    }
}

/// Creates the log buffer if there is none yet.
pub fn init_log_buffer(buffer: &mut Option<VecDeque<String>>)
    ensures
        buffer_view(*final(buffer)) == initialized(buffer_view(*old(buffer))),
{
    if buffer.is_none() {
        *buffer = Some(VecDeque::new());
    }
}

/// Initialising twice leaves the buffer as initialising once does, and an
/// existing buffer keeps its messages.
pub proof fn lemma_init_idempotent(buffer: Option<Seq<String>>)
    ensures
        initialized(initialized(buffer)) == initialized(buffer),
        buffer is Some ==> initialized(buffer) == buffer,
{
}

/// The view of an optional string slice.
pub open spec fn opt_str_view(s: Option<&str>) -> Option<Seq<char>> {
    match s {
        Some(t) => Some(t@),
        None => None,
    }
}

/// The level given to the subscriber's filter for a configured log level;
/// none means that no subscriber is installed.
pub open spec fn filter_level(log_level: Option<Seq<char>>) -> Option<Seq<char>> {
    match log_level {
        Some(s) => if s == "debug"@ {
            Some("debug"@)
        } else if s == "info"@ {
            Some("info"@)
        } else if s == "warning"@ || s == "warn"@ {
            Some("warn"@)
        } else if s == "error"@ {
            Some("error"@)
        } else {
            None
        },
        None => None,
    }
}

/// The filter level for a configured log level (`warning` and `warn` both
/// give `warn`); none for an absent or unknown level.
pub fn tracing_filter_level(log_level: Option<&str>) -> (level: Option<&'static str>)
    ensures
        opt_str_view(level) == filter_level(opt_str_view(log_level)),
{
    match log_level {
        Some(s) => {
            if crate::text::str_eq(s, "debug") {
                Some("debug")
            } else if crate::text::str_eq(s, "info") {
                Some("info")
            } else if crate::text::str_eq(s, "warning") || crate::text::str_eq(s, "warn") {
                Some("warn")
            } else if crate::text::str_eq(s, "error") {
                Some("error")
            } else {
                None
            }
        },
        None => None,
    }
}

/// Every configured level under which the layer writes lines also installs
/// a subscriber, so that events reach the layer.
pub proof fn lemma_enabled_level_installs_subscriber(log_level: Option<Seq<char>>)
    ensures
        logging_enabled(log_level) ==> filter_level(log_level) is Some,
{
}

#[verifier::external_type_specification]
#[verifier::external_body]
pub struct ExEnvFilter(tracing_subscriber::filter::EnvFilter);

/// A level name as the filter's directives write it.
pub open spec fn is_level_name(s: Seq<char>) -> bool {
    s == "trace"@ || s == "debug"@ || s == "info"@ || s == "warn"@ || s == "error"@ || s == "off"@
}

/// A target name made of lower-case ASCII letters and `_`.
pub open spec fn is_target_name(s: Seq<char>) -> bool {
    &&& s.len() > 0
    &&& forall|i: int| 0 <= i < s.len() ==> ('a' <= #[trigger] s[i] <= 'z' || s[i] == '_')
}

/// A directive as a pair of target and level name; the empty target stands
/// for every target.
pub open spec fn is_simple_directive(d: (Seq<char>, Seq<char>)) -> bool {
    (d.0.len() == 0 || is_target_name(d.0)) && is_level_name(d.1)
}

/// The text of one directive: `level`, or `target=level`.
pub open spec fn directive_text(d: (Seq<char>, Seq<char>)) -> Seq<char> {
    if d.0.len() == 0 {
        d.1
    } else {
        d.0 + "="@ + d.1
    }
}

/// The level name at which a filter lets through the events of each target
/// it has a directive for; the empty target stands for every target.
pub uninterp spec fn env_filter_levels(filter: EnvFilter) -> Map<Seq<char>, Seq<char>>;

/// The levels of a filter with one directive, `level` for every target.
pub open spec fn every_target_at(level: Seq<char>) -> Map<Seq<char>, Seq<char>> {
    Map::<Seq<char>, Seq<char>>::empty().insert(Seq::empty(), level)
}

/// `EnvFilter::new`: a filter from one directive that is a level name. The
/// directive parses, so the filter holds exactly that level for every
/// target and no default directive is added. Not stated: the filter's
/// behaviour on spans and fields. The call writes a warning to stderr when
/// the level exceeds `tracing`'s compile-time maximum level, which only
/// that crate's `max_level_*` features lower.
#[verifier::external_body]
fn new_env_filter(level: &str) -> (filter: EnvFilter)
    requires
        is_level_name(level@),
    ensures
        env_filter_levels(filter) == every_target_at(level@),
{
    EnvFilter::new(level)
}

/// `EnvFilter::add_directive`, with the directive parsed from its text by
/// `<Directive as FromStr>::from_str`. The text is required to be a simple
/// directive (`level` or `target=level`, ASCII only), which parses, so the
/// `unwrap` cannot fail; the filter then holds the directive's level for
/// its target, replacing an earlier directive for the same target
/// (`DirectiveSet::add`, whose ordering ignores the level), and is
/// otherwise unchanged. Not stated: the filter's behaviour on spans and
/// fields.
#[verifier::external_body]
fn add_directive(filter: EnvFilter, directive: &str) -> (out: EnvFilter)
    requires
        exists|d: (Seq<char>, Seq<char>)|
            is_simple_directive(d) && #[trigger] directive_text(d) == directive@,
    ensures
        forall|d: (Seq<char>, Seq<char>)|
            is_simple_directive(d) && #[trigger] directive_text(d) == directive@
                ==> env_filter_levels(out) == env_filter_levels(filter).insert(d.0, d.1),
{
    filter.add_directive(directive.parse().unwrap())
}

proof fn lemma_target_directive(target: Seq<char>, level: Seq<char>, text: Seq<char>)
    requires
        is_target_name(target),
        is_level_name(level),
        text =~= target + "="@ + level,
    ensures
        is_simple_directive((target, level)),
        directive_text((target, level)) == text,
{
}

/// The levels of the subscriber's filter at `level`.
pub open spec fn subscriber_levels(level: Seq<char>) -> Map<Seq<char>, Seq<char>> {
    Map::<Seq<char>, Seq<char>>::empty().insert(Seq::empty(), level).insert(
        "opentelemetry"@,
        "debug"@,
    ).insert("opentelemetry_sdk"@, "debug"@).insert("opentelemetry_otlp"@, "debug"@).insert(
        "opentelemetry_http"@,
        "debug"@,
    ).insert("reqwest"@, "debug"@).insert("hyper"@, "info"@)
}

/// The subscriber's filter lets every target through at the configured
/// level, the five OpenTelemetry and HTTP client targets at `debug` and
/// `hyper` at `info`, and has directives for no other target.
pub proof fn lemma_subscriber_levels(level: Seq<char>)
    ensures
        subscriber_levels(level)[Seq::empty()] == level,
        subscriber_levels(level)["opentelemetry"@] == "debug"@,
        subscriber_levels(level)["opentelemetry_sdk"@] == "debug"@,
        subscriber_levels(level)["opentelemetry_otlp"@] == "debug"@,
        subscriber_levels(level)["opentelemetry_http"@] == "debug"@,
        subscriber_levels(level)["reqwest"@] == "debug"@,
        subscriber_levels(level)["hyper"@] == "info"@,
        subscriber_levels(level).dom() == set![
            Seq::<char>::empty(),
            "opentelemetry"@,
            "opentelemetry_sdk"@,
            "opentelemetry_otlp"@,
            "opentelemetry_http"@,
            "reqwest"@,
            "hyper"@,
        ],
{
    reveal_strlit("opentelemetry");
    reveal_strlit("opentelemetry_sdk");
    reveal_strlit("opentelemetry_otlp");
    reveal_strlit("opentelemetry_http");
    reveal_strlit("reqwest");
    reveal_strlit("hyper");
    assert("opentelemetry"@.len() == 13);
    assert("opentelemetry_sdk"@.len() == 17);
    assert("opentelemetry_otlp"@.len() == 18);
    assert("opentelemetry_http"@.len() == 18);
    assert("reqwest"@.len() == 7);
    assert("hyper"@.len() == 5);
    assert("opentelemetry_sdk"@ != "opentelemetry"@) by {
        assert("opentelemetry_sdk"@.len() != "opentelemetry"@.len());
    }
    assert("opentelemetry_otlp"@ != "opentelemetry"@) by {
        assert("opentelemetry_otlp"@.len() != "opentelemetry"@.len());
    }
    assert("opentelemetry_http"@ != "opentelemetry"@) by {
        assert("opentelemetry_http"@.len() != "opentelemetry"@.len());
    }
    assert("opentelemetry_otlp"@ != "opentelemetry_sdk"@) by {
        assert("opentelemetry_otlp"@[14] != "opentelemetry_sdk"@[14]);
    }
    assert("opentelemetry_http"@ != "opentelemetry_sdk"@) by {
        assert("opentelemetry_http"@[14] != "opentelemetry_sdk"@[14]);
    }
    assert("opentelemetry_http"@ != "opentelemetry_otlp"@) by {
        assert("opentelemetry_http"@[14] != "opentelemetry_otlp"@[14]);
    }
    assert(subscriber_levels(level).dom() =~= set![
        Seq::<char>::empty(),
        "opentelemetry"@,
        "opentelemetry_sdk"@,
        "opentelemetry_otlp"@,
        "opentelemetry_http"@,
        "reqwest"@,
        "hyper"@,
    ]);
}

/// The subscriber's filter at `filter_level`: that level for every target,
/// `debug` for `opentelemetry`, `opentelemetry_sdk`, `opentelemetry_otlp`,
/// `opentelemetry_http` and `reqwest`, `info` for `hyper`.
pub fn build_env_filter(filter_level: &str) -> (filter: EnvFilter)
    requires
        is_level_name(filter_level@),
    ensures
        env_filter_levels(filter) == subscriber_levels(filter_level@),
{
    proof {
        reveal_strlit("=");
        reveal_strlit("debug");
        reveal_strlit("info");
        reveal_strlit("opentelemetry");
        reveal_strlit("opentelemetry_sdk");
        reveal_strlit("opentelemetry_otlp");
        reveal_strlit("opentelemetry_http");
        reveal_strlit("reqwest");
        reveal_strlit("hyper");
        reveal_strlit("opentelemetry=debug");
        reveal_strlit("opentelemetry_sdk=debug");
        reveal_strlit("opentelemetry_otlp=debug");
        reveal_strlit("opentelemetry_http=debug");
        reveal_strlit("reqwest=debug");
        reveal_strlit("hyper=info");
    }
    let filter = new_env_filter(filter_level);
    proof {
        lemma_target_directive("opentelemetry"@, "debug"@, "opentelemetry=debug"@);
    }
    let filter = add_directive(filter, "opentelemetry=debug");
    proof {
        lemma_target_directive("opentelemetry_sdk"@, "debug"@, "opentelemetry_sdk=debug"@);
    }
    let filter = add_directive(filter, "opentelemetry_sdk=debug");
    proof {
        lemma_target_directive("opentelemetry_otlp"@, "debug"@, "opentelemetry_otlp=debug"@);
    }
    let filter = add_directive(filter, "opentelemetry_otlp=debug");
    proof {
        lemma_target_directive("opentelemetry_http"@, "debug"@, "opentelemetry_http=debug"@);
    }
    let filter = add_directive(filter, "opentelemetry_http=debug");
    proof {
        lemma_target_directive("reqwest"@, "debug"@, "reqwest=debug"@);
    }
    let filter = add_directive(filter, "reqwest=debug");
    proof {
        lemma_target_directive("hyper"@, "info"@, "hyper=info"@);
    }
    add_directive(filter, "hyper=info")
}

/// The filter of the subscriber installed for a configured log level; none
/// when that level installs no subscriber.
pub fn subscriber_filter(log_level: Option<&str>) -> (filter: Option<EnvFilter>)
    ensures
        filter is None <==> filter_level(opt_str_view(log_level)) is None,
        filter matches Some(f) ==> env_filter_levels(f) == subscriber_levels(
            filter_level(opt_str_view(log_level))->0,
        ),
{
    match tracing_filter_level(log_level) {
        Some(level) => {
            proof {
                reveal_strlit("debug");
                reveal_strlit("info");
                reveal_strlit("warn");
                reveal_strlit("error");
            }
            Some(build_env_filter(level))
        },
        None => None,
    }
}

} // verus!
