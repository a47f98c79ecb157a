use vstd::prelude::*;

verus! {

/// How much a crate logs.
#[derive(Debug, Copy, Clone, PartialEq, Eq, Structural, Hash)]
pub enum LogLevel {
    Trace,
    Debug,
    Info,
    Warn,
    Error,
}

/// The name of a level in a filter directive; no level switches logging off.
pub open spec fn spec_level_name(level: Option<LogLevel>) -> Seq<char> {
    match level {
        None => "off"@,
        Some(LogLevel::Trace) => "trace"@,
        Some(LogLevel::Debug) => "debug"@,
        Some(LogLevel::Info) => "info"@,
        Some(LogLevel::Warn) => "warn"@,
        Some(LogLevel::Error) => "error"@,
    }
}

/// The name of a level in a filter directive; no level switches logging off.
pub fn level_name(level: Option<LogLevel>) -> (s: &'static str)
    ensures
        s@ == spec_level_name(level),
{
    match level {
        None => "off",
        Some(LogLevel::Trace) => "trace",
        Some(LogLevel::Debug) => "debug",
        Some(LogLevel::Info) => "info",
        Some(LogLevel::Warn) => "warn",
        Some(LogLevel::Error) => "error",
    }
}

/// The directive `name=level` of one crate.
pub open spec fn directive(name: Seq<char>, level: Option<LogLevel>) -> Seq<char> {
    name + "="@ + spec_level_name(level)
}

/// The directives of `levels`, joined by commas.
pub open spec fn joined_directives(levels: Seq<(&str, Option<LogLevel>)>) -> Seq<char>
    decreases levels.len(),
{
    if levels.len() == 0 {
        Seq::empty()
    } else if levels.len() == 1 {
        directive(levels[0].0@, levels[0].1)
    } else {
        joined_directives(levels.drop_last()) + ","@ + directive(levels.last().0@, levels.last().1)
    }
}

/// A log filter that switches logging off by default and sets each listed crate
/// to its level: `RUST_LOG=off,` followed by the comma-joined `name=level`
/// directives.
pub fn format_filter_slice(crate_logging_levels: &[(&str, Option<LogLevel>)]) -> (filter: String)
    ensures
        filter@ == "RUST_LOG=off,"@ + joined_directives(crate_logging_levels@),
{
    let mut filter = String::from_str("RUST_LOG=off,");
    let ghost prefix = filter@;
    let mut i: usize = 0;
    while i < crate_logging_levels.len()
        invariant
            i <= crate_logging_levels@.len(),
            filter@ == prefix + joined_directives(crate_logging_levels@.take(i as int)),
        decreases crate_logging_levels@.len() - i,
    {
        let (name, level) = crate_logging_levels[i];
        let ghost levels = crate_logging_levels@;
        assert(levels.take(i + 1).drop_last() == levels.take(i as int));
        assert(levels.take(i + 1).last() == levels[i as int]);
        if i > 0 {
            filter.append(",");
        }
        filter.append(name);
        filter.append("=");
        filter.append(level_name(level));
        proof {
            if i == 0 {
                assert(levels.take(1).len() == 1);
                assert(levels.take(1)[0] == levels[0]);
            }
        }
        i = i + 1;
    }
    assert(crate_logging_levels@.take(crate_logging_levels@.len() as int) == crate_logging_levels@);
    filter
}

/// The settings of a logging session: the filter directives, and whether
/// thread names, file names and line numbers are printed. The subscriber that
/// the session starts parses the directives into its filter.
pub struct LoggingSession {
    filter: String,
    thread_names: bool,
    file_names: bool,
    line_numbers: bool,
}

impl LoggingSession {
    /// The filter directives.
    pub closed spec fn filter(&self) -> Seq<char> {
        self.filter@
    }

    /// Whether thread names are printed.
    pub closed spec fn thread_names(&self) -> bool {
        self.thread_names
    }

    /// Whether file names are printed.
    pub closed spec fn file_names(&self) -> bool {
        self.file_names
    }

    /// Whether line numbers are printed.
    pub closed spec fn line_numbers(&self) -> bool {
        self.line_numbers
    }

    /// A session with empty filter directives that prints thread names only.
    pub fn new() -> (s: Self)
        ensures
            s.filter() == Seq::<char>::empty(),
            s.thread_names(),
            !s.file_names(),
            !s.line_numbers(),
    {
        LoggingSession { filter: String::new(), thread_names: true, file_names: false, line_numbers: false }
    }

    /// The same session with the filter directives `filter`.
    pub fn with_filter(self, filter: String) -> (s: Self)
        ensures
            s.filter() == filter@,
            s.thread_names() == self.thread_names(),
            s.file_names() == self.file_names(),
            s.line_numbers() == self.line_numbers(),
    {
        LoggingSession {
            filter,
            thread_names: self.thread_names,
            file_names: self.file_names,
            line_numbers: self.line_numbers,
        }
    }

    /// The same session, printing thread names or not.
    pub fn with_thread_names(self, enable: bool) -> (s: Self)
        ensures
            s.filter() == self.filter(),
            s.thread_names() == enable,
            s.file_names() == self.file_names(),
            s.line_numbers() == self.line_numbers(),
    {
        LoggingSession {
            filter: self.filter,
            thread_names: enable,
            file_names: self.file_names,
            line_numbers: self.line_numbers,
        }
    }

    /// The same session, printing file names or not.
    pub fn with_file_names(self, enable: bool) -> (s: Self)
        ensures
            s.filter() == self.filter(),
            s.thread_names() == self.thread_names(),
            s.file_names() == enable,
            s.line_numbers() == self.line_numbers(),
    {
        LoggingSession {
            filter: self.filter,
            thread_names: self.thread_names,
            file_names: enable,
            line_numbers: self.line_numbers,
        }
    }

    /// The same session, printing line numbers or not.
    pub fn with_line_numbers(self, enable: bool) -> (s: Self)
        ensures
            s.filter() == self.filter(),
            s.thread_names() == self.thread_names(),
            s.file_names() == self.file_names(),
            s.line_numbers() == enable,
    {
        LoggingSession {
            filter: self.filter,
            thread_names: self.thread_names,
            file_names: self.file_names,
            line_numbers: enable,
        }
    }

    /// The settings, for the subscriber that the session starts: the filter
    /// directives, and whether thread names, file names and line numbers are
    /// printed.
    pub fn into_parts(self) -> (parts: (String, bool, bool, bool))
        ensures
            parts.0@ == self.filter(),
            parts.1 == self.thread_names(),
            parts.2 == self.file_names(),
            parts.3 == self.line_numbers(),
    {
        (self.filter, self.thread_names, self.file_names, self.line_numbers)
    }
}

impl Default for LoggingSession {
    fn default() -> (s: Self)
        ensures
            s.filter() == Seq::<char>::empty(),
            s.thread_names(),
            !s.file_names(),
            !s.line_numbers(),
    {
        Self::new()
    }
}

} // verus!
