use vstd::prelude::*;

verus! {

/// Verbosity level of a log event, from most to least severe.
#[derive(Clone, Copy, Debug, PartialEq, Eq, Structural)]
pub enum Level {
    Error,
    Warn,
    Info,
    Debug,
    Trace,
}

/// What the error reporter makes of a log event.
#[derive(Clone, Copy, Debug, PartialEq, Eq, Structural)]
pub enum EventFilter {
    /// Dropped.
    Ignore,
    /// Kept as a breadcrumb attached to later events.
    Breadcrumb,
    /// Sent as a message event.
    Event,
    /// Sent as an exception event.
    Exception,
}

/// Severity of a level: higher is more severe.
pub open spec fn severity(level: Level) -> int {
    match level {
        Level::Error => 4,
        Level::Warn => 3,
        Level::Info => 2,
        Level::Debug => 1,
        Level::Trace => 0,
    }
}

/// How much of an event a filter keeps: higher keeps more.
pub open spec fn retention(filter: EventFilter) -> int {
    match filter {
        EventFilter::Ignore => 0,
        EventFilter::Breadcrumb => 1,
        EventFilter::Event => 2,
        EventFilter::Exception => 3,
    }
}

/// Errors become exceptions, warnings and infos breadcrumbs, and debug and
/// trace events are dropped.
pub open spec fn filter_of(level: Level) -> EventFilter {
    match level {
        Level::Error => EventFilter::Exception,
        Level::Warn | Level::Info => EventFilter::Breadcrumb,
        Level::Debug | Level::Trace => EventFilter::Ignore,
    }
}

/// Routes a log event of level `level` to the error reporter.
pub fn event_filter(level: Level) -> (filter: EventFilter)
    ensures
        filter == filter_of(level),
{
    match level {
        Level::Error => EventFilter::Exception,
        Level::Warn | Level::Info => EventFilter::Breadcrumb,
        Level::Debug | Level::Trace => EventFilter::Ignore,
    }
}

/// A more severe event is never kept less than a less severe one.
pub proof fn lemma_event_filter_monotone(a: Level, b: Level)
    requires
        severity(a) <= severity(b),
    ensures
        retention(filter_of(a)) <= retention(filter_of(b)),
{
}

/// Only errors are reported as events of their own.
pub proof fn lemma_only_errors_reported(level: Level)
    ensures
        retention(filter_of(level)) >= retention(EventFilter::Event) <==> level == Level::Error,
{
}

} // verus!
