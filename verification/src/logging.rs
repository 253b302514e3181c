//! File logging of packaged builds: telling a packaged build from a development one,
//! where the logs go, how log files and lines are named and formatted, and which old
//! log files are removed.
use vstd::prelude::*;

use chrono::{Datelike, Timelike};

use crate::media_capture::system_time_millis;
use crate::text::{
    contains_seq, decimal, ends_with, lowercase, owned, starts_with, str_contains, str_ends_with,
    str_eq, str_starts_with, to_lowercase, u64_to_decimal, zero_pad, zero_padded,
};

verus! {

/// The operating systems the build detection tells apart.
#[derive(Clone, Copy, PartialEq, Eq, Structural, Debug)]
pub enum Platform {
    MacOs,
    Windows,
    Linux,
    Other,
}

/// Whether a build whose executable is at `exe_path` is packaged rather than run from a
/// development tree: inside an app bundle on macOS; in an installation directory on
/// Windows (compared in lowercase); under `/usr/` or `/opt/`, as an AppImage, or with
/// `APPIMAGE` set (`appimage_env_set`) on Linux; never elsewhere.
pub open spec fn packaged_exe(os: Platform, exe_path: Seq<char>, appimage_env_set: bool) -> bool {
    match os {
        Platform::MacOs => contains_seq(exe_path, ".app/Contents/MacOS/"@),
        Platform::Windows => {
            let l = lowercase(exe_path);
            contains_seq(l, "program files"@) || contains_seq(l, "programfiles"@) || contains_seq(
                l,
                "appdata\\local\\programs"@,
            )
        },
        Platform::Linux => starts_with(exe_path, "/usr/"@) || starts_with(exe_path, "/opt/"@)
            || contains_seq(exe_path, ".AppImage"@) || appimage_env_set,
        Platform::Other => false,
    }
}

/// Whether the build is packaged (see [`packaged_exe`]); `exe_path` is the path of the
/// running executable, or `None` when it cannot be found, and the build then counts as
/// not packaged.
pub fn is_packaged_build(os: Platform, exe_path: Option<&str>, appimage_env_set: bool) -> (r: bool)
    ensures
        match exe_path {
            Some(p) => r == packaged_exe(os, p@, appimage_env_set),
            None => !r,
        },
{
    let p = match exe_path {
        Some(p) => p,
        None => return false,
    };
    match os {
        Platform::MacOs => str_contains(p, ".app/Contents/MacOS/"),
        Platform::Windows => {
            let l = to_lowercase(p);
            str_contains(l.as_str(), "program files") || str_contains(l.as_str(), "programfiles")
                || str_contains(l.as_str(), "appdata\\local\\programs")
        },
        Platform::Linux => str_starts_with(p, "/usr/") || str_starts_with(p, "/opt/")
            || str_contains(p, ".AppImage") || appimage_env_set,
        Platform::Other => false,
    }
}

/// On Linux an executable installed under `/opt/` or under `/usr/` is a packaged build,
/// whether or not it runs as an AppImage; on a platform the detection does not know,
/// no build is packaged.
pub proof fn law_linux_install_dirs_packaged(exe_path: Seq<char>, appimage_env_set: bool)
    ensures
        exe_path.len() >= 5 && exe_path.subrange(0, 5) == seq!['/', 'o', 'p', 't', '/']
            ==> packaged_exe(Platform::Linux, exe_path, appimage_env_set),
        exe_path.len() >= 5 && exe_path.subrange(0, 5) == seq!['/', 'u', 's', 'r', '/']
            ==> packaged_exe(Platform::Linux, exe_path, appimage_env_set),
        appimage_env_set ==> packaged_exe(Platform::Linux, exe_path, appimage_env_set),
        !packaged_exe(Platform::Other, exe_path, appimage_env_set),
{
    reveal_strlit("/opt/");
    reveal_strlit("/usr/");
    assert("/opt/"@ =~= seq!['/', 'o', 'p', 't', '/']);
    assert("/usr/"@ =~= seq!['/', 'u', 's', 'r', '/']);
}

/// The components of the logs directory, outermost first: `~/Library/Logs/Robrix` on
/// macOS, `%APPDATA%/Robrix/logs` on Windows, `$XDG_DATA_HOME/robrix/logs` or
/// `~/.local/share/robrix/logs` on Linux, each when its variable is set; else the
/// application's data directory and `logs`.
pub open spec fn logs_dir_spec(
    os: Platform,
    home: Option<Seq<char>>,
    appdata: Option<Seq<char>>,
    xdg_data_home: Option<Seq<char>>,
    app_data_dir: Seq<char>,
) -> Seq<Seq<char>> {
    if os == Platform::MacOs && home is Some {
        seq![home->0, "Library"@, "Logs"@, "Robrix"@]
    } else if os == Platform::Windows && appdata is Some {
        seq![appdata->0, "Robrix"@, "logs"@]
    } else if os == Platform::Linux && xdg_data_home is Some {
        seq![xdg_data_home->0, "robrix"@, "logs"@]
    } else if os == Platform::Linux && home is Some {
        seq![home->0, ".local"@, "share"@, "robrix"@, "logs"@]
    } else {
        seq![app_data_dir, "logs"@]
    }
}

/// The view of an optional string slice.
pub open spec fn view_opt(o: Option<&str>) -> Option<Seq<char>> {
    match o {
        Some(s) => Some(s@),
        None => None,
    }
}

/// The components of the logs directory (see [`logs_dir_spec`]), given the environment
/// variables `HOME`, `APPDATA` and `XDG_DATA_HOME` where they are set.
pub fn logs_dir(
    os: Platform,
    home: Option<&str>,
    appdata: Option<&str>,
    xdg_data_home: Option<&str>,
    app_data_dir: &str,
) -> (r: Vec<String>)
    ensures
        r@.map_values(|s: String| s@) == logs_dir_spec(
            os,
            view_opt(home),
            view_opt(appdata),
            view_opt(xdg_data_home),
            app_data_dir@,
        ),
{
    let mut v: Vec<String> = Vec::new();
    if os == Platform::MacOs && home.is_some() {
        v.push(owned(home.unwrap()));
        v.push(owned("Library"));
        v.push(owned("Logs"));
        v.push(owned("Robrix"));
    } else if os == Platform::Windows && appdata.is_some() {
        v.push(owned(appdata.unwrap()));
        v.push(owned("Robrix"));
        v.push(owned("logs"));
    } else if os == Platform::Linux && xdg_data_home.is_some() {
        v.push(owned(xdg_data_home.unwrap()));
        v.push(owned("robrix"));
        v.push(owned("logs"));
    } else if os == Platform::Linux && home.is_some() {
        v.push(owned(home.unwrap()));
        v.push(owned(".local"));
        v.push(owned("share"));
        v.push(owned("robrix"));
        v.push(owned("logs"));
    } else {
        v.push(owned(app_data_dir));
        v.push(owned("logs"));
    }
    let ghost want = logs_dir_spec(
        os,
        view_opt(home),
        view_opt(appdata),
        view_opt(xdg_data_home),
        app_data_dir@,
    );
    assert(v@.map_values(|s: String| s@) =~= want);
    v
}


/// The local date and time, as the clock gives it.
pub struct LocalTime {
    pub year: i32,
    pub month: u32,
    pub day: u32,
    pub hour: u32,
    pub minute: u32,
    pub second: u32,
    /// Nanoseconds since the whole second; a leap second runs from one to two billion.
    pub nanosecond: u32,
}

/// Whether the fields of `t` are in the ranges the date library gives: its years, and
/// one more at either end, which a local time near the end of its range can reach.
pub open spec fn valid_time(t: LocalTime) -> bool {
    &&& -262144 <= t.year <= 262143
    &&& 1 <= t.month <= 12
    &&& 1 <= t.day <= 31
    &&& t.hour < 24
    &&& t.minute < 60
    &&& t.second < 60
    &&& t.nanosecond < 2_000_000_000
}

/// The last millisecond the date library can represent (the end of the year 262142), in
/// milliseconds since the Unix epoch.
pub open spec fn last_representable_millis() -> int {
    8_210_266_876_799_999
}

/// The local date and time `millis` milliseconds after the Unix epoch.
///
/// Calls `chrono::DateTime::from_timestamp_millis`, which gives a time for every number
/// of milliseconds in the range `requires` admits, and moves it to the machine's time
/// zone with `with_timezone(&chrono::Local)`; then reads its fields. The local time
/// depends on the machine's time zone, so the contract states only the documented
/// ranges of the fields. Left unsaid: chrono panics when the machine's time-zone data
/// holds an offset from UTC of a whole day or more, which no valid zone has.
#[verifier::external_body]
fn local_time_at(millis: i64) -> (r: LocalTime)
    requires
        0 <= millis <= last_representable_millis(),
    ensures
        valid_time(r),
{
    let now = chrono::DateTime::from_timestamp_millis(millis).unwrap().with_timezone(&chrono::Local);
    LocalTime {
        year: now.year(),
        month: now.month(),
        day: now.day(),
        hour: now.hour(),
        minute: now.minute(),
        second: now.second(),
        nanosecond: now.nanosecond(),
    }
}

/// Whether a clock reading has a local time: it is after the Unix epoch and within what
/// the date library can represent.
pub open spec fn has_local_time(reading: Option<u128>) -> bool {
    reading matches Some(ms) && ms <= last_representable_millis()
}

/// The local date and time of a reading of the system clock (milliseconds since the
/// Unix epoch, `None` for a clock that read earlier): the reading's local time, looked up
/// with exactly those milliseconds, when the date library can represent it, else `None`.
pub fn local_time_for(reading: Option<u128>) -> (r: Option<LocalTime>)
    ensures
        (r is Some) == has_local_time(reading),
        r matches Some(t) ==> valid_time(t),
{
    match reading {
        Some(ms) => {
            if ms <= 8_210_266_876_799_999u128 {
                Some(local_time_at(ms as i64))
            } else {
                None
            }
        },
        None => None,
    }
}

/// The local date and time now: that of a reading of the system clock (see
/// [`local_time_for`]).
pub(crate) fn local_now() -> (r: Option<LocalTime>)
    ensures
        exists|reading: Option<u128>| (r is Some) == #[trigger] has_local_time(reading),
        r matches Some(t) ==> valid_time(t),
{
    let reading = system_time_millis();
    let r = local_time_for(reading);
    assert((r is Some) == has_local_time(reading));
    r
}

/// The absolute value of a year.
pub open spec fn abs_year(y: i32) -> nat {
    if y < 0 {
        (-y) as nat
    } else {
        y as nat
    }
}

/// A year as `%Y` writes it: four digits, zero-padded, for years 0 to 9999; any other
/// year with its sign and at least four digits.
pub open spec fn year_text(y: i32) -> Seq<char> {
    if 0 <= y <= 9999 {
        zero_padded(decimal(y as nat), 4)
    } else {
        (if y < 0 {
            "-"@
        } else {
            "+"@
        }) + zero_padded(decimal(abs_year(y)), 4)
    }
}

/// Two zero-padded digits, as `%m`, `%d`, `%H`, `%M` and `%S` write a field.
pub open spec fn two_digits(n: u32) -> Seq<char> {
    zero_padded(decimal(n as nat), 2)
}

/// The seconds as `%S` writes them: during a leap second (a nanosecond count of a
/// billion or more) the second after 59 is written as 60.
pub open spec fn seconds_text(t: LocalTime) -> Seq<char> {
    zero_padded(decimal((t.second + t.nanosecond / 1_000_000_000) as nat), 2)
}

/// The date as `%Y-%m-%d` writes it.
pub open spec fn date_text(t: LocalTime) -> Seq<char> {
    year_text(t.year) + "-"@ + two_digits(t.month) + "-"@ + two_digits(t.day)
}

/// The name of the log file opened at `t`: `robrix_%Y-%m-%d_%H-%M-%S.log`.
pub open spec fn log_file_name_text(t: LocalTime) -> Seq<char> {
    "robrix_"@ + date_text(t) + "_"@ + two_digits(t.hour) + "-"@ + two_digits(t.minute) + "-"@
        + seconds_text(t) + ".log"@
}

/// The timestamp of a log line written at `t`: `%Y-%m-%d %H:%M:%S%.3f`.
pub open spec fn log_timestamp_text(t: LocalTime) -> Seq<char> {
    date_text(t) + " "@ + two_digits(t.hour) + ":"@ + two_digits(t.minute) + ":"@ + seconds_text(t) + "."@ + zero_padded(decimal(((t.nanosecond / 1_000_000) % 1000) as nat), 3)
}

fn year_string(y: i32) -> (r: String)
    requires
        -262144 <= y <= 262143,
    ensures
        r@ == year_text(y),
{
    if 0 <= y && y <= 9999 {
        zero_pad(y as u64, 4)
    } else if y < 0 {
        let mut t = owned("-");
        let d = zero_pad((-y) as u64, 4);
        t.append(d.as_str());
        t
    } else {
        let mut t = owned("+");
        let d = zero_pad(y as u64, 4);
        t.append(d.as_str());
        t
    }
}

fn date_string(t: &LocalTime) -> (r: String)
    requires
        valid_time(*t),
    ensures
        r@ == date_text(*t),
{
    let mut s = year_string(t.year);
    s.append("-");
    s.append(zero_pad(t.month as u64, 2).as_str());
    s.append("-");
    s.append(zero_pad(t.day as u64, 2).as_str());
    s
}

/// The name of the log file opened at `t`.
pub fn log_file_name(t: &LocalTime) -> (r: String)
    requires
        valid_time(*t),
    ensures
        r@ == log_file_name_text(*t),
{
    let mut s = owned("robrix_");
    s.append(date_string(t).as_str());
    s.append("_");
    s.append(zero_pad(t.hour as u64, 2).as_str());
    s.append("-");
    s.append(zero_pad(t.minute as u64, 2).as_str());
    s.append("-");
    s.append(zero_pad((t.second + t.nanosecond / 1_000_000_000) as u64, 2).as_str());
    s.append(".log");
    s
}

/// The name of a log file opened now: the name for some valid local time, or `None`
/// when the system clock gives no local time (it reads earlier than the Unix epoch or
/// later than the date library can represent; see
/// [`local_time_for`]).
pub fn new_log_file_name() -> (r: Option<String>)
    ensures
        r matches Some(s) ==> exists|t: LocalTime| valid_time(t) && s@ == log_file_name_text(t),
        exists|reading: Option<u128>| (r is Some) == #[trigger] has_local_time(reading),
{
    match local_now() {
        Some(t) => Some(log_file_name(&t)),
        None => None,
    }
}

/// A line of the log file: the timestamp of `t` in brackets, then the message.
pub fn log_file_line(t: &LocalTime, message: &str) -> (r: String)
    requires
        valid_time(*t),
    ensures
        r@ == "["@ + log_timestamp_text(*t) + "] "@ + message@,
{
    let mut s = owned("[");
    s.append(date_string(t).as_str());
    s.append(" ");
    s.append(zero_pad(t.hour as u64, 2).as_str());
    s.append(":");
    s.append(zero_pad(t.minute as u64, 2).as_str());
    s.append(":");
    s.append(zero_pad((t.second + t.nanosecond / 1_000_000_000) as u64, 2).as_str());
    s.append(".");
    s.append(zero_pad(((t.nanosecond / 1_000_000) % 1000) as u64, 3).as_str());
    s.append("] ");
    s.append(message);
    s
}

/// A line of the log file written now: the line for some valid local time, or `None`
/// when the system clock gives no local time (it reads earlier than the Unix epoch or
/// later than the date library can represent; see
/// [`local_time_for`]).
pub fn log_file_line_now(message: &str) -> (r: Option<String>)
    ensures
        r matches Some(s) ==> exists|t: LocalTime| valid_time(t) && s@ == "["@ + log_timestamp_text(t)
            + "] "@ + message@,
        exists|reading: Option<u128>| (r is Some) == #[trigger] has_local_time(reading),
{
    match local_now() {
        Some(t) => Some(log_file_line(&t, message)),
        None => None,
    }
}

/// The level of a log message.
#[derive(Clone, Copy, PartialEq, Eq, Structural, Debug)]
pub enum LogLevel {
    Panic,
    Error,
    Warning,
    Log,
    Wait,
}

/// The mark of each log level.
pub open spec fn level_mark(level: LogLevel) -> Seq<char> {
    match level {
        LogLevel::Panic => "[!]"@,
        LogLevel::Error => "[E]"@,
        LogLevel::Warning => "[W]"@,
        LogLevel::Log => "[I]"@,
        LogLevel::Wait => "[.]"@,
    }
}

/// A log message as it is printed: its level's mark, then the file, the one-based line
/// and column, and the message: `[E] src/app.rs:12:5: text`.
pub fn format_log_message(
    level: LogLevel,
    file_name: &str,
    line_start: u32,
    column_start: u32,
    message: &str,
) -> (r: String)
    ensures
        r@ == level_mark(level) + " "@ + file_name@ + ":"@ + decimal(line_start as nat + 1) + ":"@
            + decimal(column_start as nat + 1) + ": "@ + message@,
{
    let mut s = match level {
        LogLevel::Panic => owned("[!]"),
        LogLevel::Error => owned("[E]"),
        LogLevel::Warning => owned("[W]"),
        LogLevel::Log => owned("[I]"),
        LogLevel::Wait => owned("[.]"),
    };
    s.append(" ");
    s.append(file_name);
    s.append(":");
    s.append(u64_to_decimal(line_start as u64 + 1).as_str());
    s.append(":");
    s.append(u64_to_decimal(column_start as u64 + 1).as_str());
    s.append(": ");
    s.append(message);
    s
}

/// A file found in the logs directory: its name, and when it was last modified (in
/// nanoseconds from the Unix epoch, negative before it), if that could be read.
pub struct LogFile {
    pub name: String,
    pub modified: Option<i128>,
}

/// Whether a file is one of the log files: `robrix_*.log`, but not the link to the
/// latest one.
pub open spec fn is_log_file_name(n: Seq<char>) -> bool {
    starts_with(n, "robrix_"@) && ends_with(n, ".log"@) && n != "robrix_latest.log"@
}

/// Whether a time that may be unknown comes before another; an unknown time comes first.
pub open spec fn time_before(a: Option<i128>, b: Option<i128>) -> bool {
    match (a, b) {
        (None, Some(_)) => true,
        (Some(x), Some(y)) => x < y,
        _ => false,
    }
}

/// Whether log file `j` sorts before log file `i`: it is older, or as old and listed
/// earlier (the sort keeps the listed order of equals).
pub open spec fn sorts_before(files: Seq<LogFile>, j: int, i: int) -> bool {
    time_before(files[j].modified, files[i].modified) || (files[j].modified == files[i].modified
        && j < i)
}

/// How many of the first `n` files are log files that sort before file `i`.
pub open spec fn rank_prefix(files: Seq<LogFile>, i: int, n: nat) -> nat
    decreases n,
{
    if n == 0 {
        0
    } else {
        rank_prefix(files, i, (n - 1) as nat) + if is_log_file_name(files[n - 1].name@)
            && sorts_before(files, n - 1, i) {
            1nat
        } else {
            0nat
        }
    }
}

/// How many of the first `n` files are log files.
pub open spec fn log_count_prefix(files: Seq<LogFile>, n: nat) -> nat
    decreases n,
{
    if n == 0 {
        0
    } else {
        log_count_prefix(files, (n - 1) as nat) + if is_log_file_name(files[n - 1].name@) {
            1nat
        } else {
            0nat
        }
    }
}

/// Whether file `i` is removed when keeping `max_keep` log files: it is a log file, and
/// among the log files sorted oldest first it is one of the first `count - max_keep`.
pub open spec fn removed(files: Seq<LogFile>, i: int, max_keep: nat) -> bool {
    let count = log_count_prefix(files, files.len());
    is_log_file_name(files[i].name@) && count > max_keep && rank_prefix(files, i, files.len())
        < count - max_keep
}

/// The positions, in increasing order, of the first `n` files that are removed.
pub open spec fn removed_prefix(files: Seq<LogFile>, max_keep: nat, n: nat) -> Seq<usize>
    decreases n,
{
    if n == 0 {
        Seq::empty()
    } else {
        let prev = removed_prefix(files, max_keep, (n - 1) as nat);
        if removed(files, n - 1, max_keep) {
            prev.push((n - 1) as usize)
        } else {
            prev
        }
    }
}

fn is_log_file(name: &str) -> (r: bool)
    ensures
        r == is_log_file_name(name@),
{
    str_starts_with(name, "robrix_") && str_ends_with(name, ".log") && !str_eq(
        name,
        "robrix_latest.log",
    )
}

fn before(files: &Vec<LogFile>, j: usize, i: usize) -> (r: bool)
    requires
        j < files@.len(),
        i < files@.len(),
    ensures
        r == sorts_before(files@, j as int, i as int),
{
    match (files[j].modified, files[i].modified) {
        (None, Some(_)) => true,
        (Some(x), Some(y)) => x < y || (x == y && j < i),
        (None, None) => j < i,
        (Some(_), None) => false,
    }
}

/// The log files to remove so that only the `max_keep` most recent remain: the oldest
/// log files beyond that number, by their position in `files`. Files that are not log
/// files are never removed.
pub fn log_files_to_remove(files: &Vec<LogFile>, max_keep: usize) -> (r: Vec<usize>)
    ensures
        r@ == removed_prefix(files@, max_keep as nat, files@.len()),
{
    let n = files.len();
    let mut count: usize = 0;
    let mut k: usize = 0;
    while k < n
        invariant
            n == files@.len(),
            k <= n,
            count == log_count_prefix(files@, k as nat),
            count <= k,
        decreases n - k,
    {
        if is_log_file(files[k].name.as_str()) {
            count = count + 1;
        }
        k = k + 1;
    }
    let mut out: Vec<usize> = Vec::new();
    let mut i: usize = 0;
    while i < n
        invariant
            n == files@.len(),
            i <= n,
            count == log_count_prefix(files@, n as nat),
            count <= n,
            out@ == removed_prefix(files@, max_keep as nat, i as nat),
        decreases n - i,
    {
        if is_log_file(files[i].name.as_str()) && count > max_keep {
            let mut rank: usize = 0;
            let mut j: usize = 0;
            while j < n
                invariant
                    n == files@.len(),
                    i < n,
                    j <= n,
                    rank == rank_prefix(files@, i as int, j as nat),
                    rank <= j,
                decreases n - j,
            {
                if is_log_file(files[j].name.as_str()) && before(files, j, i) {
                    rank = rank + 1;
                }
                j = j + 1;
            }
            if rank < count - max_keep {
                out.push(i);
            }
        }
        i = i + 1;
    }
    out
}


proof fn lemma_sorts_before_transitive(files: Seq<LogFile>, a: int, b: int, c: int)
    requires
        0 <= a < files.len(),
        0 <= b < files.len(),
        0 <= c < files.len(),
        sorts_before(files, a, b),
        sorts_before(files, b, c),
    ensures
        sorts_before(files, a, c),
{
}

proof fn lemma_rank_grows(files: Seq<LogFile>, j: int, i: int, n: nat)
    requires
        0 <= j < files.len(),
        0 <= i < files.len(),
        n <= files.len(),
        sorts_before(files, j, i),
        is_log_file_name(files[j].name@),
    ensures
        rank_prefix(files, i, n) >= rank_prefix(files, j, n) + (if j < n {
            1int
        } else {
            0int
        }),
    decreases n,
{
    if n > 0 {
        lemma_rank_grows(files, j, i, (n - 1) as nat);
        let k = n - 1;
        if is_log_file_name(files[k].name@) && sorts_before(files, k, j) {
            lemma_sorts_before_transitive(files, k, j, i);
        }
    }
}

/// Cleaning up keeps the newest log files: every log file removed is older than every
/// log file kept (or as old and listed earlier).
pub proof fn law_cleanup_keeps_newest(files: Seq<LogFile>, max_keep: nat, i: int, j: int)
    requires
        0 <= i < files.len(),
        0 <= j < files.len(),
        removed(files, i, max_keep),
        is_log_file_name(files[j].name@),
        !removed(files, j, max_keep),
    ensures
        sorts_before(files, i, j),
{
    if !sorts_before(files, i, j) {
        assert(i != j);
        assert(sorts_before(files, j, i));
        lemma_rank_grows(files, j, i, files.len());
    }
}

} // verus!
