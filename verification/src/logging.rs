//! Configurable log rotation: the `[logging]` section, the decisions of the
//! rotating log writer, and the names of the log files.
//!
//! Supports time-based rotation (hourly/daily/weekly/never), optional
//! size-based rotation, and gzip compression of rotated files.
//!
//! **Config:**
//! ```toml
//! [logging]
//! level       = "info"    # stderr filter; RUST_LOG overrides this
//! rotation    = "daily"   # daily | hourly | weekly | never
//! max_size_mb = 100       # 0 = time-only rotation (no size limit)
//! compress    = true      # gzip rotated files in a background thread
//! ```

use vstd::prelude::*;
use crate::paths::{path_join, path_join_spec, parent_path, path_parent};
use crate::text::{all_digits, concat2, is_digit, owned, str_eq, u64_text, nat_text};

verus! {

// ── Config ───────────────────────────────────────────────────────────────────

pub fn default_level() -> (r: String)
    ensures
        r@ == "info"@,
{
    owned("info")
}

pub fn default_max_size_mb() -> (r: u64)
    ensures
        r == 100,
{
    100
}

pub fn default_compress() -> (r: bool)
    ensures
        r,
{
    true
}

/// Rotation strategy for the log file.
#[derive(Clone, Copy, Debug, PartialEq, Eq, Structural)]
pub enum RotationStrategy {
    Daily,
    Hourly,
    Weekly,
    Never,
}

impl Default for RotationStrategy {
    fn default() -> (r: Self)
        ensures
            r == RotationStrategy::Daily,
    {
        RotationStrategy::Daily
    }
}

/// `[logging]` section in `config/config.toml`.
pub struct LoggingConfig {
    /// Stderr log level when `RUST_LOG` is not set.
    /// Accepts any `tracing` filter directive, e.g. `"debug"` or `"hc_hue=debug,rumqttc=warn"`.
    pub level: String,
    /// Time-based rotation strategy: `daily` (default), `hourly`, `weekly`, or `never`.
    pub rotation: RotationStrategy,
    /// Rotate the active log file when it exceeds this many megabytes.
    /// Combined with `rotation` as "whichever comes first".
    /// Set to `0` to disable size-based rotation.
    pub max_size_mb: u64,
    /// Gzip-compress rotated files in a background thread.
    pub compress: bool,
}

impl Default for LoggingConfig {
    fn default() -> (r: Self)
        ensures
            r.level@ == "info"@,
            r.rotation == RotationStrategy::Daily,
            r.max_size_mb == 100,
            r.compress,
    {
        LoggingConfig {
            level: default_level(),
            rotation: RotationStrategy::Daily,
            max_size_mb: default_max_size_mb(),
            compress: default_compress(),
        }
    }
}

// ── Periods ──────────────────────────────────────────────────────────────────

/// The `chrono` format of the period that a rotation strategy rotates on;
/// none for `Never`.
pub open spec fn period_pattern_spec(rotation: RotationStrategy) -> Option<Seq<char>> {
    match rotation {
        RotationStrategy::Hourly => Some("%Y-%m-%d_%H"@),
        RotationStrategy::Daily => Some("%Y-%m-%d"@),
        RotationStrategy::Weekly => Some("%Y-W%V"@),
        RotationStrategy::Never => None,
    }
}

/// The format of the timestamp that names a file rotated with no period.
pub open spec fn timestamp_pattern() -> Seq<char> {
    "%Y-%m-%dT%H%M%S"@
}

/// The `chrono` format of the period that a rotation strategy rotates on.
pub fn period_pattern(rotation: RotationStrategy) -> (r: Option<&'static str>)
    ensures
        match period_pattern_spec(rotation) {
            Some(p) => r matches Some(x) && x@ == p,
            None => r is None,
        },
{
    match rotation {
        RotationStrategy::Hourly => Some("%Y-%m-%d_%H"),
        RotationStrategy::Daily => Some("%Y-%m-%d"),
        RotationStrategy::Weekly => Some("%Y-W%V"),
        RotationStrategy::Never => None,
    }
}

/// The formats that [`local_time_text`] is called with.
pub open spec fn is_time_pattern(p: Seq<char>) -> bool {
    p == "%Y-%m-%d_%H"@ || p == "%Y-%m-%d"@ || p == "%Y-W%V"@ || p == timestamp_pattern()
}

/// A year as `chrono` writes it for `%Y`: at least four digits, with a
/// sign in front for a year outside 0 to 9999.
pub open spec fn is_year_text(s: Seq<char>) -> bool {
    (s.len() >= 4 && all_digits(s))
        || (s.len() >= 5 && (s[0] == '+' || s[0] == '-') && all_digits(s.drop_first()))
}

/// Whether `s` has the shape of template `t`: a digit where `t` holds `#`,
/// and the very character of `t` elsewhere.
pub open spec fn fits_template(s: Seq<char>, t: Seq<char>) -> bool {
    s.len() == t.len() && forall|i: int|
        0 <= i < t.len() ==> if t[i] == '#' { is_digit(#[trigger] s[i]) } else { s[i] == t[i] }
}

/// What follows the year in the text of each time format: two-digit,
/// zero-padded fields between the format's literal characters.
pub open spec fn after_year_template(p: Seq<char>) -> Seq<char> {
    if p == "%Y-%m-%d_%H"@ {
        "-##-##_##"@
    } else if p == "%Y-%m-%d"@ {
        "-##-##"@
    } else if p == "%Y-W%V"@ {
        "-W##"@
    } else {
        "-##-##T######"@
    }
}

/// The shape of a local time rendered with format `p`: a year, then the
/// format's two-digit fields and literal characters.
pub open spec fn is_local_time_text(p: Seq<char>, r: Seq<char>) -> bool {
    let n = after_year_template(p).len();
    r.len() >= n + 4
        && is_year_text(r.subrange(0, r.len() - n))
        && fits_template(r.subrange(r.len() - n, r.len() as int), after_year_template(p))
}

/// `chrono::Local::now().format(pattern)`: the local time rendered with one
/// of this module's formats.  Claimed is only the shape of the text that
/// `chrono` writes for these formats (a year of four or more digits, signed
/// outside 0 to 9999, then zero-padded two-digit fields between the
/// format's literal characters); which time it shows depends on the clock
/// and the time zone, and is left unsaid.
#[verifier::external_body]
fn local_time_text(pattern: &str) -> (r: String)
    requires
        is_time_pattern(pattern@),
    ensures
        is_local_time_text(pattern@, r@),
{
    chrono::Local::now().format(pattern).to_string()
}

/// The current rotation period: the local time in the strategy's format;
/// empty for `Never`.
pub fn period_str(rotation: RotationStrategy) -> (r: String)
    ensures
        match period_pattern_spec(rotation) {
            Some(p) => is_local_time_text(p, r@) && r@.len() > 0,
            None => r@.len() == 0,
        },
{
    match period_pattern(rotation) {
        Some(p) => local_time_text(p),
        None => String::new(),
    }
}

// ── Rotation decisions ───────────────────────────────────────────────────────

/// What the rotating writer keeps to decide when to rotate and how to name
/// rotated files.
pub struct RotationState {
    pub bytes_written: u64,
    pub max_bytes: u64,
    pub rotation: RotationStrategy,
    pub current_period: String,
    pub period_counter: u32,
}

/// Whether the period has moved on: a new, non-empty period differing from
/// the current one.
pub open spec fn period_changed_spec(s: RotationState, new_period: Seq<char>) -> bool {
    new_period.len() > 0 && new_period != s.current_period@
}

/// Whether the active file has exceeded the size limit (0 meaning none).
pub open spec fn size_exceeded_spec(s: RotationState) -> bool {
    s.max_bytes > 0 && s.bytes_written > s.max_bytes
}

/// Rotation comes from the period or from the size: an empty period
/// (strategy `Never`) never triggers it, nor does the period it is in; a
/// size limit of 0 disables size-based rotation, and a file that holds no
/// more than the limit is not rotated for its size.
pub proof fn lemma_rotation_triggers(s: RotationState, new_period: Seq<char>)
    ensures
        !period_changed_spec(s, Seq::empty()),
        s.max_bytes == 0 ==> !size_exceeded_spec(s),
        s.bytes_written <= s.max_bytes ==> !size_exceeded_spec(s),
        new_period == s.current_period@ ==> !period_changed_spec(s, new_period),
{
}

/// Right after a rotation at period `p` (the state `t` that
/// [`RotationState::enter_period`] and then [`RotationState::finish_rotation`]
/// leave), a check at the same period calls for no further rotation: the
/// active file is empty, and its period is `p` unless `p` changed nothing.
pub proof fn lemma_no_rotation_right_after(s: RotationState, p: Seq<char>, t: RotationState)
    requires
        t.bytes_written == 0,
        period_changed_spec(s, p) ==> t.current_period@ == p,
        !period_changed_spec(s, p) ==> t.current_period == s.current_period,
    ensures
        !period_changed_spec(t, p),
        !size_exceeded_spec(t),
{
}

impl RotationState {
    /// The state of a writer that opened an active file already holding
    /// `bytes_written` bytes, in period `current_period`.
    pub fn new(rotation: RotationStrategy, max_bytes: u64, bytes_written: u64, current_period: String) -> (r: Self)
        ensures
            r.rotation == rotation,
            r.max_bytes == max_bytes,
            r.bytes_written == bytes_written,
            r.current_period == current_period,
            r.period_counter == 0,
    {
        RotationState { bytes_written, max_bytes, rotation, current_period, period_counter: 0 }
    }

    /// Whether to rotate now that the period is `new_period`: the period
    /// has moved on, or the active file has exceeded the size limit.
    pub fn needs_rotation(&self, new_period: &str) -> (r: bool)
        ensures
            r == (period_changed_spec(*self, new_period@) || size_exceeded_spec(*self)),
    {
        let period_changed = new_period.unicode_len() > 0 && !str_eq(new_period, self.current_period.as_str());
        let size_exceeded = self.max_bytes > 0 && self.bytes_written > self.max_bytes;
        period_changed || size_exceeded
    }

    /// At a rotation: where the period has moved on, the new period starts,
    /// with its rotated files numbered afresh.
    pub fn enter_period(&mut self, new_period: String)
        ensures
            final(self).bytes_written == old(self).bytes_written,
            final(self).max_bytes == old(self).max_bytes,
            final(self).rotation == old(self).rotation,
            period_changed_spec(*old(self), new_period@) ==> final(self).current_period == new_period
                && final(self).period_counter == 0,
            !period_changed_spec(*old(self), new_period@) ==> final(self).current_period == old(
                self,
            ).current_period && final(self).period_counter == old(self).period_counter,
    {
        let period_changed = new_period.as_str().unicode_len() > 0 && !str_eq(
            new_period.as_str(),
            self.current_period.as_str(),
        );
        if period_changed {
            self.period_counter = 0;
            self.current_period = new_period;
        }
    }

    /// After a rotation: the new active file is empty, and one more file
    /// was rotated in this period.
    pub fn finish_rotation(&mut self)
        requires
            old(self).period_counter < u32::MAX,
        ensures
            final(self).bytes_written == 0,
            final(self).period_counter == old(self).period_counter + 1,
            final(self).max_bytes == old(self).max_bytes,
            final(self).rotation == old(self).rotation,
            final(self).current_period == old(self).current_period,
    {
        self.bytes_written = 0;
        self.period_counter = self.period_counter + 1;
    }

    /// Counts `n` more bytes written to the active file.
    pub fn record_write(&mut self, n: u64)
        requires
            old(self).bytes_written + n <= u64::MAX,
        ensures
            final(self).bytes_written == old(self).bytes_written + n,
            final(self).max_bytes == old(self).max_bytes,
            final(self).rotation == old(self).rotation,
            final(self).current_period == old(self).current_period,
            final(self).period_counter == old(self).period_counter,
    {
        self.bytes_written = self.bytes_written + n;
    }

    /// The period that names a rotated file: the current period, or where
    /// there is none (rotation `Never`), the local time to the second.
    pub fn rotation_period(&self) -> (r: String)
        ensures
            self.current_period@.len() > 0 ==> r@ == self.current_period@,
            self.current_period@.len() == 0 ==> is_local_time_text(timestamp_pattern(), r@)
                && r@.len() > 0,
    {
        if self.current_period.as_str().unicode_len() == 0 {
            local_time_text("%Y-%m-%dT%H%M%S")
        } else {
            self.current_period.clone()
        }
    }

    /// The first number to try for a numbered rotated file: 1 at the start
    /// of a period, else the number of files already rotated in it.
    pub fn first_numbered_index(&self) -> (r: u32)
        ensures
            r == if self.period_counter == 0 { 1 } else { self.period_counter },
    {
        if self.period_counter == 0 { 1 } else { self.period_counter }
    }
}

/// The name of a rotated file: `{prefix}.{period}.log`, or with a number,
/// `{prefix}.{period}.{n}.log`.
pub open spec fn rotated_file_name_spec(prefix: Seq<char>, period: Seq<char>, index: Option<u32>) -> Seq<char> {
    match index {
        Some(n) => prefix + "."@ + period + "."@ + nat_text(n as nat) + ".log"@,
        None => prefix + "."@ + period + ".log"@,
    }
}

/// The name of a rotated file.
pub fn rotated_file_name(prefix: &str, period: &str, index: Option<u32>) -> (r: String)
    ensures
        r@ == rotated_file_name_spec(prefix@, period@, index),
{
    let mut r = owned(prefix);
    r.append(".");
    r.append(period);
    match index {
        Some(n) => {
            r.append(".");
            let digits = u64_text(n as u64);
            r.append(digits.as_str());
        },
        None => {},
    }
    r.append(".log");
    r
}

// ── Helpers ───────────────────────────────────────────────────────────────────

/// The active log file: `{prefix}.log` in `dir`.
pub fn active_path(dir: &str, prefix: &str) -> (r: String)
    ensures
        r@ == path_join_spec(dir@, prefix@ + ".log"@),
{
    let name = concat2(prefix, ".log");
    path_join(dir, name.as_str())
}

/// The size limit in bytes of `max_size_mb` megabytes, saturating.
pub fn max_bytes(max_size_mb: u64) -> (r: u64)
    ensures
        r == if max_size_mb * 1048576 <= u64::MAX { max_size_mb * 1048576 } else { u64::MAX as int },
{
    match max_size_mb.checked_mul(1024 * 1024) {
        Some(v) => v,
        None => u64::MAX,
    }
}

/// The directory of the log files: `logs` beside the config directory, or
/// `logs` in the working directory where the config path has no
/// grandparent.
pub open spec fn log_dir_spec(config_path: Seq<char>) -> Seq<char> {
    match path_parent(config_path) {
        Some(p) => match path_parent(p) {
            Some(pp) => path_join_spec(pp, "logs"@),
            None => "logs"@,
        },
        None => "logs"@,
    }
}

/// The directory of the log files.
pub fn log_dir(config_path: &str) -> (r: String)
    ensures
        r@ == log_dir_spec(config_path@),
{
    match parent_path(config_path) {
        Some(p) => match parent_path(p.as_str()) {
            Some(pp) => path_join(pp.as_str(), "logs"),
            None => owned("logs"),
        },
        None => owned("logs"),
    }
}

/// The stderr filter where `RUST_LOG` is not set.
pub struct StderrDirective {
    /// The filter directive.
    pub directive: String,
    /// Whether it is the plugin's default, in which case a directive that
    /// does not parse gives way to `info`.
    pub is_default: bool,
}

/// The stderr filter directive where `RUST_LOG` is not set: the configured
/// level where the user changed it from `info`, else the plugin's default.
pub fn stderr_directive(level: &str, stderr_default: &str) -> (r: StderrDirective)
    ensures
        r.is_default == (level@ == "info"@),
        r.directive@ == if r.is_default { stderr_default@ } else { level@ },
{
    if str_eq(level, "info") {
        StderrDirective { directive: owned(stderr_default), is_default: true }
    } else {
        StderrDirective { directive: owned(level), is_default: false }
    }
}

} // verus!
