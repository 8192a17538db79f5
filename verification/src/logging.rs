//! What the logging set-up does for a given configuration.
//!
//! Installing the log subscriber, creating the folder and opening the file are
//! left to the caller; this module decides what to install.
use vstd::prelude::*;
use crate::config::{LogsConfig, LogsConfigView, LogsLevel};

verus! {

/// The decimal digit of a number below ten.
pub open spec fn digit_char(d: nat) -> char
    recommends
        d < 10,
{
    if d == 0 {
        '0'
    } else if d == 1 {
        '1'
    } else if d == 2 {
        '2'
    } else if d == 3 {
        '3'
    } else if d == 4 {
        '4'
    } else if d == 5 {
        '5'
    } else if d == 6 {
        '6'
    } else if d == 7 {
        '7'
    } else if d == 8 {
        '8'
    } else {
        '9'
    }
}

/// The value of a decimal digit character.
pub open spec fn digit_value(c: char) -> nat {
    if c == '0' {
        0
    } else if c == '1' {
        1
    } else if c == '2' {
        2
    } else if c == '3' {
        3
    } else if c == '4' {
        4
    } else if c == '5' {
        5
    } else if c == '6' {
        6
    } else if c == '7' {
        7
    } else if c == '8' {
        8
    } else {
        9
    }
}

/// Whether a character is one of `0` to `9`.
pub open spec fn is_digit(c: char) -> bool {
    '0' <= c && c <= '9'
}

/// The decimal notation of `n`, without leading zeros.
pub open spec fn decimal(n: nat) -> Seq<char>
    decreases n,
{
    if n < 10 {
        seq![digit_char(n)]
    } else {
        decimal(n / 10).push(digit_char(n % 10))
    }
}

/// The number that a string of decimal digits denotes.
pub open spec fn decimal_value(s: Seq<char>) -> nat
    decreases s.len(),
{
    if s.len() == 0 {
        0
    } else {
        decimal_value(s.drop_last()) * 10 + digit_value(s.last())
    }
}

/// The name of the log file of a run started `secs` seconds after the Unix epoch.
pub open spec fn spec_log_file_name(secs: nat) -> Seq<char> {
    decimal(secs) + ".log"@
}

/// The one-character string of a decimal digit.
fn digit_str(d: u64) -> (s: &'static str)
    requires
        d < 10,
    ensures
        s@ == seq![digit_char(d as nat)],
{
    proof {
        reveal_strlit("0");
        reveal_strlit("1");
        reveal_strlit("2");
        reveal_strlit("3");
        reveal_strlit("4");
        reveal_strlit("5");
        reveal_strlit("6");
        reveal_strlit("7");
        reveal_strlit("8");
        reveal_strlit("9");
    }
    if d == 0 {
        "0"
    } else if d == 1 {
        "1"
    } else if d == 2 {
        "2"
    } else if d == 3 {
        "3"
    } else if d == 4 {
        "4"
    } else if d == 5 {
        "5"
    } else if d == 6 {
        "6"
    } else if d == 7 {
        "7"
    } else if d == 8 {
        "8"
    } else {
        "9"
    }
}

/// The decimal notation of `n`.
pub fn decimal_string(n: u64) -> (s: String)
    ensures
        s@ == decimal(n as nat),
    decreases n,
{
    if n < 10 {
        String::from_str(digit_str(n))
    } else {
        let mut s = decimal_string(n / 10);
        s.append(digit_str(n % 10));
        s
    }
}

/// The name of the log file of a run started `secs` seconds after the Unix
/// epoch: the seconds in decimal, then `.log`.
pub fn log_file_name(secs: u64) -> (name: String)
    ensures
        name@ == spec_log_file_name(secs as nat),
{
    let mut name = decimal_string(secs);
    name.append(".log");
    name
}

/// What the logging set-up installs.
pub enum LogsPlan {
    /// No logging at all.
    Off,
    /// Logs go to the console, filtered by `directive`.
    Console { directive: String },
    /// Logs go to the console and to the file `file_name` in the folder `folder`
    /// (relative to the folder of the executable), both filtered by `directive`.
    ConsoleAndFile { directive: String, folder: String, file_name: String },
}

/// The mathematical value of a `LogsPlan`.
pub enum LogsPlanView {
    Off,
    Console { directive: Seq<char> },
    ConsoleAndFile { directive: Seq<char>, folder: Seq<char>, file_name: Seq<char> },
}

impl View for LogsPlan {
    type V = LogsPlanView;

    open spec fn view(&self) -> LogsPlanView {
        match self {
            LogsPlan::Off => LogsPlanView::Off,
            LogsPlan::Console { directive } => LogsPlanView::Console { directive: directive@ },
            LogsPlan::ConsoleAndFile { directive, folder, file_name } =>
                LogsPlanView::ConsoleAndFile {
                    directive: directive@,
                    folder: folder@,
                    file_name: file_name@,
                },
        }
    }
}

/// What is installed for the settings `c` when the clock reads `now_secs`
/// seconds after the Unix epoch (`None`: the clock reads before the epoch).
pub open spec fn spec_plan_logs(c: LogsConfigView, now_secs: Option<u64>) -> LogsPlanView {
    if !c.enabled {
        LogsPlanView::Off
    } else if !c.file.enabled {
        LogsPlanView::Console { directive: c.level.spec_directive() }
    } else {
        match now_secs {
            Some(secs) => LogsPlanView::ConsoleAndFile {
                directive: c.level.spec_directive(),
                folder: c.file.path,
                file_name: spec_log_file_name(secs as nat),
            },
            None => LogsPlanView::Console { directive: c.level.spec_directive() },
        }
    }
}

/// Decides what the logging set-up installs for `config`, given the seconds
/// since the Unix epoch that the clock reads (`None` when it reads before it).
pub fn plan_logs(config: &LogsConfig, now_secs: Option<u64>) -> (plan: LogsPlan)
    ensures
        plan@ == spec_plan_logs(config@, now_secs),
{
    if !config.enabled {
        return LogsPlan::Off;
    }
    let directive = String::from_str(config.level.directive());
    if !config.file.enabled {
        return LogsPlan::Console { directive };
    }
    match now_secs {
        Some(secs) => LogsPlan::ConsoleAndFile {
            directive,
            folder: config.file.path.clone(),
            file_name: log_file_name(secs),
        },
        None => LogsPlan::Console { directive },
    }
}

/// Reading the decimal notation of `n` back gives `n`.
pub proof fn lemma_decimal_round_trip(n: nat)
    ensures
        decimal_value(decimal(n)) == n,
    decreases n,
{
    if n < 10 {
        let s = decimal(n);
        assert(s.drop_last() =~= Seq::<char>::empty());
        assert(decimal_value(s.drop_last()) == 0);
        assert(digit_value(digit_char(n)) == n);
        assert(s.last() == digit_char(n));
    } else {
        lemma_decimal_round_trip(n / 10);
        let s = decimal(n);
        assert(s.drop_last() =~= decimal(n / 10));
        assert(s.last() == digit_char(n % 10));
        assert(digit_value(digit_char(n % 10)) == n % 10);
        assert((n / 10) * 10 + n % 10 == n) by (nonlinear_arith);
    }
}

/// The decimal notation of `n` is a non-empty string of digits that starts
/// with `0` only when it is the single digit `0`.
pub proof fn lemma_decimal_digits(n: nat)
    ensures
        decimal(n).len() > 0,
        forall|i: int| 0 <= i < decimal(n).len() ==> is_digit(#[trigger] decimal(n)[i]),
        decimal(n)[0] == '0' ==> n == 0,
    decreases n,
{
    if n >= 10 {
        lemma_decimal_digits(n / 10);
        assert(n / 10 > 0);
    }
}

/// Runs started at different seconds log into files of different names.
pub proof fn law_log_file_names_distinct(a: nat, b: nat)
    requires
        a != b,
    ensures
        spec_log_file_name(a) != spec_log_file_name(b),
{
    lemma_decimal_round_trip(a);
    lemma_decimal_round_trip(b);
    reveal_strlit(".log");
    if spec_log_file_name(a) == spec_log_file_name(b) {
        let sa = spec_log_file_name(a);
        let sb = spec_log_file_name(b);
        assert(".log"@.len() == 4);
        assert(sa.len() == decimal(a).len() + 4);
        assert(sb.len() == decimal(b).len() + 4);
        assert(sa.len() == sb.len());
        assert(decimal(a).len() == decimal(b).len());
        assert(decimal(a) =~= sa.subrange(0, decimal(a).len() as int));
        assert(decimal(b) =~= sa.subrange(0, decimal(b).len() as int));
    }
}

/// With logs off nothing is installed, whatever the clock reads.
pub proof fn law_disabled_logs_install_nothing(c: LogsConfigView, now_secs: Option<u64>)
    requires
        !c.enabled,
    ensures
        spec_plan_logs(c, now_secs) == LogsPlanView::Off,
{
}

/// With logs and the log file on, and a clock that reads after the epoch, the
/// file is named after the seconds and lies in the configured folder.
pub proof fn law_file_logs_named_by_clock(c: LogsConfigView, secs: u64)
    requires
        c.enabled,
        c.file.enabled,
    ensures
        spec_plan_logs(c, Some(secs)) == (LogsPlanView::ConsoleAndFile {
            directive: c.level.spec_directive(),
            folder: c.file.path,
            file_name: decimal(secs as nat) + ".log"@,
        }),
{
}

/// The lower-case name of a level, as the log filter reads it.
pub proof fn law_directive_names(l: LogsLevel)
    ensures
        l == LogsLevel::Error ==> l.spec_directive() == "error"@,
        l == LogsLevel::Warn ==> l.spec_directive() == "warn"@,
        l == LogsLevel::Info ==> l.spec_directive() == "info"@,
        l == LogsLevel::Debug ==> l.spec_directive() == "debug"@,
        l == LogsLevel::Trace ==> l.spec_directive() == "trace"@,
{
}

/// With logs on, whatever is installed filters by the configured level's own
/// name; with the log file off, or a clock before the epoch, only the console
/// is used; otherwise the file is named after the seconds in the configured folder.
pub proof fn law_plan_follows_settings(c: LogsConfigView, now_secs: Option<u64>)
    requires
        c.enabled,
    ensures
        !c.file.enabled ==> spec_plan_logs(c, now_secs) == (LogsPlanView::Console {
            directive: level_name(c.level),
        }),
        c.file.enabled && now_secs is None ==> spec_plan_logs(c, now_secs) == (LogsPlanView::Console {
            directive: level_name(c.level),
        }),
        c.file.enabled && now_secs is Some ==> spec_plan_logs(c, now_secs) == (
        LogsPlanView::ConsoleAndFile {
            directive: level_name(c.level),
            folder: c.file.path,
            file_name: decimal(now_secs->Some_0 as nat) + ".log"@,
        }),
{
    reveal_strlit("error");
    reveal_strlit("warn");
    reveal_strlit("info");
    reveal_strlit("debug");
    reveal_strlit("trace");
    assert(c.level.spec_directive() =~= level_name(c.level));
}

/// The name of each level in lower case.
pub open spec fn level_name(l: LogsLevel) -> Seq<char> {
    match l {
        LogsLevel::Error => seq!['e', 'r', 'r', 'o', 'r'],
        LogsLevel::Warn => seq!['w', 'a', 'r', 'n'],
        LogsLevel::Info => seq!['i', 'n', 'f', 'o'],
        LogsLevel::Debug => seq!['d', 'e', 'b', 'u', 'g'],
        LogsLevel::Trace => seq!['t', 'r', 'a', 'c', 'e'],
    }
}

} // verus!
