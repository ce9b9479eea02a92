//! Daily request quota of the transcription service's free tier.
//!
//! The counter is kept per UTC day: a warning is raised once when the
//! warning threshold is crossed, and requests are refused once the daily
//! limit has been reached.

use vstd::prelude::*;

verus! {

/// Requests allowed per UTC day on the free tier.
pub const DAILY_LIMIT: u32 = 2000;

/// Number of requests at which the user is warned (three quarters of the limit).
pub const WARN_THRESHOLD: u32 = 1500;

/// Name of the file, in the application's directory, that holds the counter.
pub const QUOTA_FILE_NAME: &'static str = "groq_quota.json";

/// The persisted quota counter of one UTC day.
#[derive(Debug, PartialEq)]
pub struct QuotaStatus {
    /// The day the counter belongs to, `YYYY-MM-DD` in UTC.
    pub date: String,
    /// Requests made on that day.
    pub used: u32,
    /// The limit that applies (informative, shown to the user).
    pub limit: u32,
    /// Whether the warning has already been raised on that day.
    pub warned: bool,
}

/// The answer to a request for one more transcription.
#[derive(Debug)]
pub enum CheckResult {
    /// Under the warning threshold, or already warned today.
    Allowed,
    /// The warning threshold has just been crossed (once per day); carries the new counter.
    WarnCrossed(QuotaStatus),
    /// The daily limit is reached; carries the unchanged counter.
    Blocked(QuotaStatus),
}

impl CheckResult {
    /// Whether the request was refused (the counter then needs no saving).
    pub fn is_blocked(&self) -> (b: bool)
        ensures
            b == (*self is Blocked),
    {
        match self {
            CheckResult::Blocked(_) => true,
            _ => false,
        }
    }
}

impl Clone for QuotaStatus {
    fn clone(&self) -> (r: Self)
        ensures
            r == *self,
    {
        QuotaStatus { date: self.date.clone(), used: self.used, limit: self.limit, warned: self.warned }
    }
}

/// Whether `c` is an ASCII decimal digit.
pub open spec fn is_digit(c: char) -> bool {
    '0' <= c && c <= '9'
}

/// The shape of a day written `%Y-%m-%d`: a year of at least four characters
/// (four digits for the years 0 to 9999, a sign and four or more digits
/// otherwise), a dash, two digits of month, a dash, two digits of day.
pub open spec fn is_day_text(s: Seq<char>) -> bool {
    let n = s.len() as int;
    &&& n >= 10
    &&& s[n - 6] == '-'
    &&& s[n - 3] == '-'
    &&& is_digit(s[n - 5])
    &&& is_digit(s[n - 4])
    &&& is_digit(s[n - 2])
    &&& is_digit(s[n - 1])
}

/// Today's date in UTC, formatted `%Y-%m-%d` (`YYYY-MM-DD` for the years 0 to 9999).
///
/// Reads `std::time::SystemTime::now`, converts it with chrono's
/// `From<SystemTime> for DateTime<Utc>` (which accepts clocks before 1970) and
/// formats it with `DateTime::format("%Y-%m-%d")`. Which day comes back depends
/// on the clock, so only the shape of the text is stated: chrono writes the
/// month and the day as two zero-padded digits and the year zero-padded to four
/// digits, with a sign outside 0 to 9999. The conversion unwraps a date that
/// only fails beyond chrono's range of about 262,000 years around year 0,
/// which no system clock reaches.
#[verifier::external_body]
fn today_utc() -> (day: String)
    ensures
        is_day_text(day@),
{
    chrono::DateTime::<chrono::Utc>::from(std::time::SystemTime::now()).format("%Y-%m-%d").to_string()
}

impl QuotaStatus {
    /// A counter with no request made yet, at the default limit, not warned.
    pub open spec fn is_fresh(self) -> bool {
        &&& self.used == 0
        &&& self.limit == DAILY_LIMIT
        &&& !self.warned
    }

    /// The daily limit has been reached: no more requests today.
    pub open spec fn is_exhausted(self) -> bool {
        self.used >= DAILY_LIMIT
    }

    /// The counter after one more request has been let through.
    pub open spec fn counted(self) -> QuotaStatus {
        QuotaStatus {
            date: self.date,
            used: (self.used + 1) as u32,
            limit: self.limit,
            warned: self.warned || self.used + 1 >= WARN_THRESHOLD,
        }
    }

    /// The counter after a request: unchanged when exhausted, counted otherwise.
    pub open spec fn after_request(self) -> QuotaStatus {
        if self.is_exhausted() {
            self
        } else {
            self.counted()
        }
    }

    /// The answer given to a request made with this counter.
    pub open spec fn verdict(self) -> CheckResult {
        if self.is_exhausted() {
            CheckResult::Blocked(self)
        } else if !self.warned && self.used + 1 >= WARN_THRESHOLD {
            CheckResult::WarnCrossed(self.counted())
        } else {
            CheckResult::Allowed
        }
    }

    /// A fresh counter for the given day.
    pub fn fresh(date: String) -> (r: QuotaStatus)
        ensures
            r.is_fresh(),
            r.date == date,
    {
        QuotaStatus { date, used: 0, limit: DAILY_LIMIT, warned: false }
    }

    /// The counter to use on `today`: this one if it belongs to that day, else
    /// a fresh counter dated `today`.
    pub fn rolled_over(self, today: &String) -> (r: QuotaStatus)
        ensures
            self.date@ == today@ ==> r == self,
            self.date@ != today@ ==> r.is_fresh() && r.date == *today,
    {
        if self.date == *today {
            self
        } else {
            QuotaStatus::fresh(today.clone())
        }
    }

    /// Lets one more request through if the daily limit allows it.
    ///
    /// Blocked when `used` has reached the daily limit, the counter left as it
    /// is. Otherwise the request is counted, and the first request that brings
    /// `used` to the warning threshold on a day is answered `WarnCrossed`.
    pub fn register_request(&mut self) -> (r: CheckResult)
        ensures
            r == old(self).verdict(),
            *final(self) == old(self).after_request(),
    {
        if self.used >= DAILY_LIMIT {
            return CheckResult::Blocked(self.clone());
        }
        self.used = self.used + 1;
        let just_crossed_warn = !self.warned && self.used >= WARN_THRESHOLD;
        if just_crossed_warn {
            self.warned = true;
        }
        if just_crossed_warn {
            CheckResult::WarnCrossed(self.clone())
        } else {
            CheckResult::Allowed
        }
    }
}

impl Default for QuotaStatus {
    /// A fresh counter dated today (UTC).
    fn default() -> (r: Self)
        ensures
            r.is_fresh(),
            is_day_text(r.date@),
    {
        QuotaStatus::fresh(today_utc())
    }
}

/// The counter in force on `today`, from what was read from storage (`None`
/// when nothing could be read or parsed): the stored counter when it is dated
/// `today`, else a fresh counter dated `today`.
pub fn status_for_day(stored: Option<QuotaStatus>, today: &String) -> (r: QuotaStatus)
    ensures
        stored is None ==> r.used == 0 && r.limit == DAILY_LIMIT && !r.warned && r.date == *today,
        stored matches Some(s) ==> (s.date@ == today@ ==> r == s),
        stored matches Some(s) ==> (s.date@ != today@ ==> {
            &&& r.used == 0
            &&& r.limit == DAILY_LIMIT
            &&& !r.warned
            &&& r.date == *today
        }),
{
    match stored {
        Some(s) => s.rolled_over(today),
        None => QuotaStatus::fresh(today.clone()),
    }
}

/// The counter in force now, from what was read from storage (`None` when
/// nothing could be read or parsed): a fresh counter dated today (UTC) when
/// nothing was stored or the stored one belongs to another day, else the
/// stored one. Which day is today depends on the clock: the clock is read
/// once and the day read is handed to [`status_for_day`].
pub fn load_status(stored: Option<QuotaStatus>) -> (r: QuotaStatus)
    ensures
        stored is None ==> r.is_fresh() && is_day_text(r.date@),
        stored matches Some(s) ==> {
            ||| r == s
            ||| r.is_fresh() && is_day_text(r.date@) && r.date@ != s.date@
        },
        stored matches Some(s) && !is_day_text(s.date@) ==> r.is_fresh() && is_day_text(r.date@),
{
    let today = today_utc();
    status_for_day(stored, &today)
}

impl QuotaStatus {
    /// The counter after `n` successive requests.
    pub open spec fn after_requests(self, n: nat) -> QuotaStatus
        decreases n,
    {
        if n == 0 {
            self
        } else {
            self.after_requests((n - 1) as nat).after_request()
        }
    }
}

/// A request never takes the counter past the daily limit.
pub proof fn lemma_request_respects_limit(s: QuotaStatus)
    requires
        s.used <= DAILY_LIMIT,
    ensures
        s.after_request().used <= DAILY_LIMIT,
        s.after_request().date == s.date,
        s.after_request().limit == s.limit,
{
}

/// The warning is raised at most once a day: once the counter is marked
/// warned it stays so, and no later request is answered `WarnCrossed`.
pub proof fn lemma_warning_raised_once(s: QuotaStatus)
    ensures
        s.verdict() is WarnCrossed ==> s.after_request().warned,
        s.warned ==> s.after_request().warned,
        s.warned ==> !(s.verdict() is WarnCrossed),
{
}

/// A blocked request changes nothing, and asking again is blocked again.
pub proof fn lemma_blocked_is_stable(s: QuotaStatus)
    requires
        s.verdict() is Blocked,
    ensures
        s.after_request() == s,
        s.after_request().verdict() is Blocked,
{
}

/// The day's schedule, from a fresh counter: requests are let through up to
/// the daily limit, the one that reaches the warning threshold is answered
/// `WarnCrossed`, and every request after the limit is blocked. `k` counts the
/// requests made before the one asked about.
pub proof fn lemma_daily_schedule(s: QuotaStatus, k: nat)
    requires
        s.is_fresh(),
    ensures
        s.after_requests(k).used == (if k < DAILY_LIMIT { k } else { DAILY_LIMIT as nat }),
        s.after_requests(k).warned == (k >= WARN_THRESHOLD),
        s.after_requests(k).date == s.date,
        s.after_requests(k).limit == s.limit,
        k + 1 < WARN_THRESHOLD ==> s.after_requests(k).verdict() is Allowed,
        k + 1 == WARN_THRESHOLD ==> s.after_requests(k).verdict() is WarnCrossed,
        WARN_THRESHOLD < k + 1 <= DAILY_LIMIT ==> s.after_requests(k).verdict() is Allowed,
        k >= DAILY_LIMIT ==> s.after_requests(k).verdict() is Blocked,
    decreases k,
{
    if k > 0 {
        lemma_daily_schedule(s, (k - 1) as nat);
    }
}

/// Once marked warned, a counter stays warned through any further requests.
proof fn lemma_warned_stays(s: QuotaStatus, i: nat, j: nat)
    requires
        i <= j,
        s.after_requests(i).warned,
    ensures
        s.after_requests(j).warned,
    decreases j - i,
{
    if i < j {
        lemma_warned_stays(s, i, (j - 1) as nat);
    }
}

/// Once a request is blocked, the counter no longer changes.
proof fn lemma_blocked_stays(s: QuotaStatus, i: nat, j: nat)
    requires
        i <= j,
        s.after_requests(i).verdict() is Blocked,
    ensures
        s.after_requests(j) == s.after_requests(i),
    decreases j - i,
{
    if i < j {
        lemma_blocked_stays(s, i, (j - 1) as nat);
    }
}

/// Requests never take the counter above the daily limit, or above its
/// starting value when it started higher.
proof fn lemma_used_bounded(s: QuotaStatus, k: nat)
    ensures
        s.after_requests(k).used <= (if s.used <= DAILY_LIMIT { DAILY_LIMIT } else { s.used }),
        s.after_requests(k).date == s.date,
    decreases k,
{
    if k > 0 {
        lemma_used_bounded(s, (k - 1) as nat);
    }
}

/// Any run of requests on one day, from any stored counter: at most one
/// request is answered `WarnCrossed`; once a request is blocked, every later
/// one is blocked too; and the counter never exceeds the daily limit, or its
/// starting value if that was already higher. `i` and `j` count the requests
/// made before the two asked about.
pub proof fn lemma_requests_of_a_day(s: QuotaStatus, i: nat, j: nat)
    requires
        i < j,
    ensures
        !(s.after_requests(i).verdict() is WarnCrossed && s.after_requests(j).verdict() is WarnCrossed),
        s.after_requests(i).verdict() is Blocked ==> s.after_requests(j).verdict() is Blocked,
        s.after_requests(j).used <= (if s.used <= DAILY_LIMIT { DAILY_LIMIT } else { s.used }),
        s.after_requests(j).date == s.date,
{
    if s.after_requests(i).verdict() is WarnCrossed {
        assert(s.after_requests(i + 1).warned);
        lemma_warned_stays(s, i + 1, j);
    }
    if s.after_requests(i).verdict() is Blocked {
        lemma_blocked_stays(s, i, j);
    }
    lemma_used_bounded(s, j);
}

/// The midnight reset, for any stored counter and any day: a counter is kept
/// exactly when it is dated that day; otherwise the day starts afresh (no
/// request counted, not warned, the daily limit) and is dated that day, so
/// yesterday's exhausted counter lets the next request through.
pub proof fn lemma_reset_at_midnight(stored: QuotaStatus, today: String, loaded: QuotaStatus)
    requires
        stored.date@ == today@ ==> loaded == stored,
        stored.date@ != today@ ==> {
            &&& loaded.used == 0
            &&& loaded.limit == DAILY_LIMIT
            &&& !loaded.warned
            &&& loaded.date == today
        },
    ensures
        loaded.date@ == today@,
        stored.date@ != today@ ==> loaded.date@ != stored.date@,
        stored.date@ != today@ ==> loaded.verdict() is Allowed,
        stored.date@ != today@ ==> loaded.after_request().used == 1,
{
}

} // verus!
