//! Self update: when to look for a new release, what to announce, and where
//! the binary sits in the release archive.
use vstd::prelude::*;

verus! {

/// How long after its build a binary starts looking for new releases: three days.
pub const RELEASE_CHECK_DELAY_SECONDS: i64 = 259200;

/// Whether a binary built `elapsed_seconds` ago (whole seconds, rounded
/// toward zero) looks for a new release.
pub fn release_check_due(elapsed_seconds: i64) -> (r: bool)
    ensures
        r == (elapsed_seconds >= RELEASE_CHECK_DELAY_SECONDS),
{
    elapsed_seconds >= RELEASE_CHECK_DELAY_SECONDS
}

/// The instant that `chrono` reads in an RFC 3339 date, as whole seconds
/// since the Unix epoch and the nanoseconds past that second; `None` when it
/// refuses the text.
pub uninterp spec fn rfc3339_instant(s: Seq<char>) -> Option<(i64, u32)>;

/// Calls `chrono::DateTime::parse_from_rfc3339` and, on success, reads the
/// date's `timestamp` and `timestamp_subsec_nanos`. Claimed of it: its result
/// is what [`rfc3339_instant`] names for the text.
#[verifier::external_body]
fn parse_rfc3339_instant(s: &str) -> (r: Option<(i64, u32)>)
    ensures
        r == rfc3339_instant(s@),
{
    chrono::DateTime::parse_from_rfc3339(s).ok().map(
        |date| (date.timestamp(), date.timestamp_subsec_nanos()),
    )
}

#[verifier::external_type_specification]
#[verifier::external_body]
pub struct ExSystemTime(std::time::SystemTime);

#[verifier::external_type_specification]
#[verifier::external_body]
pub struct ExSystemTimeError(std::time::SystemTimeError);

/// `SystemTime::now` of std: the clock; nothing is claimed of it.
pub assume_specification[ std::time::SystemTime::now ]() -> std::time::SystemTime;

/// `SystemTime::duration_since` of std: fails when `earlier` is later than
/// the time; nothing more is claimed.
pub assume_specification[ std::time::SystemTime::duration_since ](
    t: &std::time::SystemTime,
    earlier: std::time::SystemTime,
) -> Result<std::time::Duration, std::time::SystemTimeError>;

/// `UNIX_EPOCH` of std, 1970-01-01 00:00:00 UTC; nothing is claimed of it.
#[verifier::external_body]
fn unix_epoch() -> std::time::SystemTime {
    std::time::UNIX_EPOCH
}

/// `Duration::as_secs` of std: the whole seconds; nothing is claimed of them.
pub assume_specification[ std::time::Duration::as_secs ](d: &std::time::Duration) -> u64;

/// `Duration::subsec_nanos` of std: the fraction of a second in
/// nanoseconds, which std documents to be less than one billion.
pub assume_specification[ std::time::Duration::subsec_nanos ](d: &std::time::Duration) -> (r: u32)
    ensures
        r < 1_000_000_000,
;

/// The length of `(now_s, now_n)` after `(then_s, then_n)`, each given as
/// whole seconds and nanoseconds past that second, in nanoseconds.
pub open spec fn elapsed_nanos(now_s: int, now_n: int, then_s: int, then_n: int) -> int {
    (now_s - then_s) * 1_000_000_000 + (now_n - then_n)
}

/// How long after its build a binary starts looking for new releases, in
/// nanoseconds.
pub open spec fn release_check_delay_nanos() -> int {
    RELEASE_CHECK_DELAY_SECONDS * 1_000_000_000
}

/// Whether a binary built at `build_date` (RFC 3339) looks for a new release
/// at the instant `now_seconds` + `now_nanos` nanoseconds: once three days
/// have passed. `None` when the build date does not parse.
pub fn update_check_due(build_date: &str, now_seconds: i64, now_nanos: u32) -> (r: Option<bool>)
    ensures
        match rfc3339_instant(build_date@) {
            None => r is None,
            Some((t, n)) => r == Some(
                elapsed_nanos(now_seconds as int, now_nanos as int, t as int, n as int)
                    >= release_check_delay_nanos(),
            ),
        },
{
    match parse_rfc3339_instant(build_date) {
        None => None,
        Some((t, n)) => {
            let seconds: i128 = now_seconds as i128 - t as i128;
            assert(-0x1_0000_0000_0000_0000 < seconds < 0x1_0000_0000_0000_0000);
            let elapsed: i128 = seconds * 1_000_000_000 + (now_nanos as i128 - n as i128);
            Some(elapsed >= RELEASE_CHECK_DELAY_SECONDS as i128 * 1_000_000_000)
        },
    }
}

/// The check is due exactly from the instant three days after the build
/// on: at any reading of the clock before it, it is not, and at any reading
/// from it on, it is; so a later reading is never less due than an earlier
/// one.
pub proof fn lemma_check_waits_three_days(t: int, n: int, s1: int, ns1: int, s2: int, ns2: int)
    requires
        0 <= ns1 < 1_000_000_000,
        0 <= ns2 < 1_000_000_000,
    ensures
        (elapsed_nanos(s1, ns1, t, n) >= release_check_delay_nanos()) <==> (s1 * 1_000_000_000 + ns1
            >= (t + 259200) * 1_000_000_000 + n),
        0 <= n && s1 < t + 259200 - 1 ==> !(elapsed_nanos(s1, ns1, t, n) >= release_check_delay_nanos()),
        0 <= n < 1_000_000_000 && s1 >= t + 259200 + 1 ==> elapsed_nanos(s1, ns1, t, n)
            >= release_check_delay_nanos(),
        (s1 * 1_000_000_000 + ns1 <= s2 * 1_000_000_000 + ns2 && elapsed_nanos(s1, ns1, t, n)
            >= release_check_delay_nanos()) ==> elapsed_nanos(s2, ns2, t, n)
            >= release_check_delay_nanos(),
{
}

/// A build more than three days before 1970 is due at every reading of the
/// clock after 1970.
pub proof fn lemma_old_builds_always_due(t: int, n: int, s: int, ns: int)
    requires
        elapsed_nanos(0, 0, t, n) >= release_check_delay_nanos(),
        0 <= s,
        0 <= ns,
    ensures
        elapsed_nanos(s, ns, t, n) >= release_check_delay_nanos(),
{
}

/// Why the time since the build could not be measured.
#[derive(Debug, Clone, Copy, PartialEq, Eq, Structural)]
pub enum UpdateCheckError {
    /// The build date is not an RFC 3339 date.
    InvalidBuildDate,
    /// The clock reads before 1970, or too far in the future to count.
    ClockUnreadable,
}

/// Whether a binary built at `build_date` looks for a new release now.
///
/// Fails with `InvalidBuildDate` exactly when the build date does not parse;
/// otherwise the answer, or `ClockUnreadable`, depends on the clock.
pub fn update_check_due_now(build_date: &str) -> (r: Result<bool, UpdateCheckError>)
    ensures
        rfc3339_instant(build_date@) is None <==> r == Err::<bool, UpdateCheckError>(
            UpdateCheckError::InvalidBuildDate,
        ),
        match r {
            Ok(due) => match rfc3339_instant(build_date@) {
                None => false,
                Some((t, n)) => exists|s: int, ns: int|
                    #![trigger elapsed_nanos(s, ns, t as int, n as int)]
                    0 <= s <= i64::MAX && 0 <= ns < 1_000_000_000 && due == (elapsed_nanos(
                        s,
                        ns,
                        t as int,
                        n as int,
                    ) >= release_check_delay_nanos()),
            },
            Err(UpdateCheckError::ClockUnreadable) => rfc3339_instant(build_date@) is Some,
            Err(UpdateCheckError::InvalidBuildDate) => rfc3339_instant(build_date@) is None,
        },
{
    if parse_rfc3339_instant(build_date).is_none() {
        return Err(UpdateCheckError::InvalidBuildDate);
    }
    let now = std::time::SystemTime::now();
    match now.duration_since(unix_epoch()) {
        Err(_) => Err(UpdateCheckError::ClockUnreadable),
        Ok(since_epoch) => {
            let seconds = since_epoch.as_secs();
            if seconds > 9223372036854775807u64 {
                return Err(UpdateCheckError::ClockUnreadable);
            }
            let nanos = since_epoch.subsec_nanos();
            let now_seconds = seconds as i64;
            match update_check_due(build_date, now_seconds, nanos) {
                Some(due) => {
                    proof {
                        let (t, n) = rfc3339_instant(build_date@).unwrap();
                        assert(due == (elapsed_nanos(
                            now_seconds as int,
                            nanos as int,
                            t as int,
                            n as int,
                        ) >= release_check_delay_nanos()));
                    }
                    Ok(due)
                },
                None => Err(UpdateCheckError::InvalidBuildDate),
            }
        },
    }
}

/// The version to announce, given the running version and the latest
/// release found, if any: the latest one, unless it is the running one.
pub fn available_update(current: &str, latest: Option<String>) -> (r: Option<String>)
    ensures
        match latest {
            None => r is None,
            Some(v) => if v@ == current@ {
                r is None
            } else {
                r == Some(v)
            },
        },
{
    match latest {
        None => None,
        Some(version) => {
            let running = current.to_owned();
            if running == version {
                None
            } else {
                Some(version)
            }
        },
    }
}

/// The path of the `swarmd` binary inside the release archive of `version`
/// for the target triple `target`.
pub fn archive_bin_path(version: &str, target: &str) -> (r: String)
    ensures
        r@ == "swarmd-v"@ + version@ + "-"@ + target@ + "/swarmd"@,
{
    let mut r = "swarmd-v".to_owned();
    r.append(version);
    r.append("-");
    r.append(target);
    r.append("/swarmd");
    r
}

} // verus!
