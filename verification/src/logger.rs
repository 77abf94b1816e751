use std::io::Write;
use vstd::prelude::*;
use vstd::string::*;

verus! {

/// The logger's verbosity class. A call site's level must equal the
/// configured level exactly for the call to produce output; the levels
/// are not ordered as severities here.
#[derive(Clone, Copy, PartialEq, Eq, Structural, Debug)]
pub enum LogLevel {
    Debug,
    Info,
    Error,
}

impl LogLevel {
    /// The level's display name, as it appears in a log line.
    pub open spec fn spec_name(self) -> Seq<char> {
        match self {
            LogLevel::Debug => "DEBUG"@,
            LogLevel::Info => "INFO"@,
            LogLevel::Error => "ERROR"@,
        }
    }

    pub fn name(self) -> (r: &'static str)
        ensures
            r@ == self.spec_name(),
    {
        match self {
            LogLevel::Debug => "DEBUG",
            LogLevel::Info => "INFO",
            LogLevel::Error => "ERROR",
        }
    }
}

/// The level a textual level name selects: the three recognized names
/// map to their levels; an unrecognized or absent name defaults to Info.
pub open spec fn spec_level_for(level: Option<Seq<char>>) -> LogLevel {
    match level {
        Option::Some(s) => if s == "DEBUG"@ {
            LogLevel::Debug
        } else if s == "INFO"@ {
            LogLevel::Info
        } else if s == "ERROR"@ {
            LogLevel::Error
        } else {
            LogLevel::Info
        },
        Option::None => LogLevel::Info,
    }
}

/// Character-by-character string comparison.
fn str_eq(a: &str, b: &str) -> (r: bool)
    ensures
        r == (a@ == b@),
{
    let n = a.unicode_len();
    if n != b.unicode_len() {
        return false;
    }
    let mut i: usize = 0;
    while i < n
        invariant
            i <= n,
            n == a@.len(),
            n == b@.len(),
            forall|k: int| 0 <= k < i ==> a@[k] == #[trigger] b@[k],
        decreases n - i,
    {
        if a.get_char(i) != b.get_char(i) {
            return false;
        }
        i += 1;
    }
    proof {
        assert(a@ =~= b@);
    }
    true
}

/// A leveled console logger: holds one immutable level for its
/// lifetime and emits a line only on an exact level match.
pub struct Logger {
    level: LogLevel,
}

impl Logger {
    /// The configured level.
    pub closed spec fn level(&self) -> LogLevel {
        self.level
    }

    /// A call at `call_level` produces output exactly when the
    /// configured level equals it.
    pub open spec fn emits(&self, call_level: LogLevel) -> bool {
        self.level() == call_level
    }

    /// Builds a logger from an optional textual level name.
    pub fn get_logger(level: Option<&str>) -> (r: Logger)
        ensures
            r.level() == spec_level_for(level.deep_view()),
    {
        let lvl = match level {
            Option::Some(log_level) => if str_eq(log_level, "DEBUG") {
                LogLevel::Debug
            } else if str_eq(log_level, "INFO") {
                LogLevel::Info
            } else if str_eq(log_level, "ERROR") {
                LogLevel::Error
            } else {
                LogLevel::Info
            },
            Option::None => LogLevel::Info,
        };
        Logger { level: lvl }
    }

    /// Decides whether a call at `call_level` may print.
    pub fn should_log(&self, call_level: LogLevel) -> (r: bool)
        ensures
            r == self.emits(call_level),
    {
        self.level == call_level
    }
}

/// The key-value map a sequence of pairs denotes, a later pair for a
/// key overriding an earlier one.
pub open spec fn pairs_as_map(pairs: Seq<(Seq<char>, Seq<char>)>) -> Map<Seq<char>, Seq<char>>
    decreases pairs.len(),
{
    if pairs.len() == 0 {
        Map::empty()
    } else {
        pairs_as_map(pairs.drop_last()).insert(pairs.last().0, pairs.last().1)
    }
}

/// Structured extra context attached to a single log call: a mapping
/// from string keys to string values, created and discarded per call.
pub struct LogExtraParams {
    pairs: Vec<(String, String)>,
}

impl View for LogExtraParams {
    type V = Map<Seq<char>, Seq<char>>;

    closed spec fn view(&self) -> Map<Seq<char>, Seq<char>> {
        pairs_as_map(self.pairs.deep_view())
    }
}

impl LogExtraParams {
    /// An empty parameter bag.
    pub fn new() -> (r: LogExtraParams)
        ensures
            r@ == Map::<Seq<char>, Seq<char>>::empty(),
    {
        let r = LogExtraParams { pairs: Vec::new() };
        proof {
            assert(r.pairs.deep_view() =~= Seq::<(Seq<char>, Seq<char>)>::empty());
        }
        r
    }

    /// Binds `value` to `key`, replacing any earlier binding of the key.
    pub fn insert(&mut self, key: &str, value: &str)
        ensures
            final(self)@ == old(self)@.insert(key@, value@),
    {
        let ghost before = self.pairs.deep_view();
        self.pairs.push((String::from_str(key), String::from_str(value)));
        proof {
            assert(self.pairs.deep_view().drop_last() =~= before);
            assert(self.pairs.deep_view().last() == (key@, value@));
        }
    }
}

/// What serde_json::to_string returns for a map from string keys to
/// string values: one JSON object, a function of the key-value map alone.
pub uninterp spec fn json_of(m: Map<Seq<char>, Seq<char>>) -> Seq<char>;

#[verifier::external_type_specification]
#[verifier::external_body]
pub struct ExSerdeJsonError(serde_json::Error);

/// Relies on serde_json::to_string over a BTreeMap of string slices:
/// its only documented failure cases are non-string keys and failing
/// Serialize implementations, and string slices have neither, so the
/// call succeeds, and the JSON text is determined by the key-value map
/// alone (entries in key order, the same escaping every time).
#[verifier::external_body]
fn serialize_extra_params(params: &LogExtraParams) -> (r: Result<String, serde_json::Error>)
    ensures
        r is Ok,
        r matches Ok(s) ==> s@ == json_of(params@),
{
    let mut map = std::collections::BTreeMap::new();
    for (k, v) in params.pairs.iter() {
        map.insert(k.as_str(), v.as_str());
    }
    serde_json::to_string(&map)
}

/// Relies on serde_json::Error's Display implementation to describe a
/// serialization failure.
#[verifier::external_body]
fn serde_error_text(e: &serde_json::Error) -> (r: String) {
    format!("{}", e)
}

/// Relies on chrono's DateTime::from_timestamp and to_rfc3339 for the
/// timestamp text; the value depends on the clock, so nothing is
/// promised of it. A clock before the Unix epoch or outside chrono's
/// range yields an empty timestamp instead of a panic.
#[verifier::external_body]
fn now_timestamp() -> (r: String) {
    match std::time::SystemTime::now().duration_since(std::time::UNIX_EPOCH) {
        Ok(d) => match chrono::DateTime::<chrono::Utc>::from_timestamp(
            d.as_secs() as i64,
            d.subsec_nanos(),
        ) {
            Some(t) => t.to_rfc3339(),
            None => String::new(),
        },
        Err(_) => String::new(),
    }
}

/// Relies on std::io::Stdout's write to send one line to standard output.
#[verifier::external_body]
fn print_line(s: &str) {
    let _ = writeln!(std::io::stdout(), "{}", s);
}

/// Relies on std::io::Stderr's write to send one line to standard error.
#[verifier::external_body]
fn print_err_line(s: &str) {
    let _ = writeln!(std::io::stderr(), "{}", s);
}

/// The formatted log line: a timestamp, the level's name, the message,
/// and the extra segment, joined by the fixed separators.
pub open spec fn spec_message(
    ts: Seq<char>,
    level: LogLevel,
    msg: Seq<char>,
    extra: Seq<char>,
) -> Seq<char> {
    ts + "     "@ + level.spec_name() + "     "@ + msg + "  "@ + extra
}

/// `r` is a log line for `level`, `msg` and `extra` under some
/// timestamp; the timestamp is the one part the clock decides.
pub open spec fn is_message_for(
    r: Seq<char>,
    level: LogLevel,
    msg: Seq<char>,
    extra: Seq<char>,
) -> bool {
    exists|ts: Seq<char>| r == #[trigger] spec_message(ts, level, msg, extra)
}

/// Every formatted line is a log line for its own parts.
pub proof fn lemma_message_intro(ts: Seq<char>, level: LogLevel, msg: Seq<char>, extra: Seq<char>)
    ensures
        is_message_for(spec_message(ts, level, msg, extra), level, msg, extra),
{
    assert(spec_message(ts, level, msg, extra) == spec_message(ts, level, msg, extra));
}

impl Logger {
    /// Formats one log line. The timestamp comes from the clock, so the
    /// contract fixes everything but it: the line is the message format
    /// applied to some timestamp, with the extra segment the JSON of
    /// the given parameters, or empty when none were given. (Were a
    /// serialization failure ever to surface, it would be noted on
    /// standard output and the extra segment left empty.)
    pub fn make_message(&self, msg: &str, extra_params: Option<&LogExtraParams>) -> (r: String)
        ensures
            match extra_params {
                Option::None => is_message_for(r@, self.level(), msg@, Seq::<char>::empty()),
                Option::Some(p) => is_message_for(r@, self.level(), msg@, json_of(p@)),
            },
    {
        let extra: String = match extra_params {
            Option::None => String::new(),
            Option::Some(params) => match serialize_extra_params(params) {
                Result::Ok(s) => s,
                Result::Err(err) => {
                    let mut note = String::from_str("Failed to serialize extra params: ");
                    note.append(serde_error_text(&err).as_str());
                    print_line(note.as_str());
                    String::new()
                },
            },
        };
        let mut line = now_timestamp();
        let ghost ts = line@;
        line.append("     ");
        line.append(self.level.name());
        line.append("     ");
        line.append(msg);
        line.append("  ");
        line.append(extra.as_str());
        proof {
            assert(line@ == spec_message(ts, self.level(), msg@, extra@));
            lemma_message_intro(ts, self.level(), msg@, extra@);
        }
        line
    }

    /// Formats and prints the message on standard output, but only when
    /// the configured level is Debug.
    pub fn debug(&self, message: &str, extra_params: Option<&LogExtraParams>) {
        if self.should_log(LogLevel::Debug) {
            let line = self.make_message(message, extra_params);
            print_line(line.as_str());
        }
    }

    /// Formats and prints the message on standard output, but only when
    /// the configured level is Info.
    pub fn info(&self, message: &str, extra_params: Option<&LogExtraParams>) {
        if self.should_log(LogLevel::Info) {
            let line = self.make_message(message, extra_params);
            print_line(line.as_str());
        }
    }

    /// Formats and prints the message on standard error, but only when
    /// the configured level is Error.
    pub fn error(&self, message: &str, extra_params: Option<&LogExtraParams>) {
        if self.should_log(LogLevel::Error) {
            let line = self.make_message(message, extra_params);
            print_err_line(line.as_str());
        }
    }
}

/// Each of the three recognized level names selects its own level, and
/// an absent name falls back to Info.
pub proof fn lemma_recognized_level_names()
    ensures
        spec_level_for(Option::Some("DEBUG"@)) == LogLevel::Debug,
        spec_level_for(Option::Some("INFO"@)) == LogLevel::Info,
        spec_level_for(Option::Some("ERROR"@)) == LogLevel::Error,
        spec_level_for(Option::<Seq<char>>::None) == LogLevel::Info,
{
    reveal_strlit("DEBUG");
    reveal_strlit("INFO");
    reveal_strlit("ERROR");
    assert("INFO"@.len() != "DEBUG"@.len());
    assert("ERROR"@[0] != "DEBUG"@[0]);
    assert("ERROR"@.len() != "INFO"@.len());
}

/// A logger configured at Info is silent for debug and error calls:
/// under the exact-match policy only info calls produce output.
pub proof fn lemma_info_logger_silences_debug_and_error(l: Logger)
    requires
        l.level() == LogLevel::Info,
    ensures
        !l.emits(LogLevel::Debug),
        !l.emits(LogLevel::Error),
{
}

/// The driver passes the level name "DEBUG" exactly when the debug
/// flag is set: with it debug calls emit, without it they are silent.
pub proof fn lemma_debug_flag_controls_debug_emission(with_flag: Logger, without_flag: Logger)
    requires
        with_flag.level() == spec_level_for(Option::Some("DEBUG"@)),
        without_flag.level() == spec_level_for(Option::<Seq<char>>::None),
    ensures
        with_flag.emits(LogLevel::Debug),
        !without_flag.emits(LogLevel::Debug),
{
}

} // verus!
