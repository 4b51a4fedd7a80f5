//! The retrying fetcher: one logical download is a bounded sequence of
//! attempts. The retry discipline, the events it emits and the per-attempt
//! progress accounting are modelled here over attempt outcomes; the HTTP
//! transfer itself is performed by the caller, one attempt at a time.
use vstd::prelude::*;

use crate::network::{DownloadEvent, Downloader};
use crate::text::{append_str, chars_to_string, dec_spec, push_decimal};

verus! {

/// Maximum number of attempts for one logical download.
pub const MAX_RETRIES: u64 = 3;

/// Fixed backoff between failed attempts, in seconds.
pub const RETRY_BACKOFF_SECS: u64 = 2;

/// Overall timeout of one HTTP attempt, in seconds.
pub const HTTP_TIMEOUT_SECS: u64 = 300;

/// The result of one attempt: the path the file was streamed to, or a
/// description of what went wrong (network error, bad status, size mismatch).
#[derive(Debug)]
pub enum AttemptOutcome {
    Success(String),
    Failure(String),
}

/// The message of the error event emitted after a failed attempt when
/// further attempts remain.
pub open spec fn retry_message_spec(failures: int, msg: Seq<char>) -> Seq<char> {
    "Retry "@ + dec_spec(failures) + "/"@ + dec_spec(MAX_RETRIES as int) + ": "@ + msg
}

/// The message of the final error event once every attempt has failed.
pub open spec fn exhausted_message_spec(msg: Seq<char>) -> Seq<char> {
    "Failed after "@ + dec_spec(MAX_RETRIES as int) + " retries: "@ + msg
}

/// Decides what follows a failed attempt: the message of the error event to
/// emit, and whether another attempt (after the fixed backoff) is owed.
/// `failures` is the number of attempts that have failed so far.
pub fn on_attempt_failure(failures: u64, msg: &str) -> (r: (String, bool))
    requires
        1 <= failures <= MAX_RETRIES,
    ensures
        r.1 == (failures < MAX_RETRIES),
        failures < MAX_RETRIES ==> r.0@ == retry_message_spec(failures as int, msg@),
        failures == MAX_RETRIES ==> r.0@ == exhausted_message_spec(msg@),
{
    let mut out: Vec<char> = Vec::new();
    if failures < MAX_RETRIES {
        append_str(&mut out, "Retry ");
        push_decimal(&mut out, failures);
        append_str(&mut out, "/");
        push_decimal(&mut out, MAX_RETRIES);
        append_str(&mut out, ": ");
        append_str(&mut out, msg);
        proof {
            assert(out@ =~= retry_message_spec(failures as int, msg@));
        }
        (chars_to_string(&out), true)
    } else {
        append_str(&mut out, "Failed after ");
        push_decimal(&mut out, MAX_RETRIES);
        append_str(&mut out, " retries: ");
        append_str(&mut out, msg);
        proof {
            assert(out@ =~= exhausted_message_spec(msg@));
        }
        (chars_to_string(&out), false)
    }
}

/// How many attempts fail before the first success (all of them, if none
/// succeeds).
pub open spec fn leading_failures(outcomes: Seq<AttemptOutcome>) -> int
    decreases outcomes.len(),
{
    if outcomes.len() == 0 {
        0
    } else if outcomes[0] is Failure {
        1 + leading_failures(outcomes.drop_first())
    } else {
        0
    }
}

proof fn lemma_lf_bound(outcomes: Seq<AttemptOutcome>)
    ensures
        0 <= leading_failures(outcomes) <= outcomes.len(),
    decreases outcomes.len(),
{
    if outcomes.len() > 0 && outcomes[0] is Failure {
        lemma_lf_bound(outcomes.drop_first());
    }
}

proof fn lemma_lf_at_least(outcomes: Seq<AttemptOutcome>, k: int)
    requires
        0 <= k <= outcomes.len(),
        forall|i: int| 0 <= i < k ==> outcomes[i] is Failure,
    ensures
        leading_failures(outcomes) >= k,
    decreases k,
{
    if k > 0 {
        assert(outcomes[0] is Failure);
        assert forall|i: int| 0 <= i < k - 1 implies outcomes.drop_first()[i] is Failure by {
            assert(outcomes.drop_first()[i] == outcomes[i + 1]);
        }
        lemma_lf_at_least(outcomes.drop_first(), k - 1);
    } else {
        lemma_lf_bound(outcomes);
    }
}

proof fn lemma_lf_exact(outcomes: Seq<AttemptOutcome>, k: int)
    requires
        0 <= k < outcomes.len(),
        forall|i: int| 0 <= i < k ==> outcomes[i] is Failure,
        outcomes[k] is Success,
    ensures
        leading_failures(outcomes) == k,
    decreases k,
{
    if k > 0 {
        lemma_lf_exact(outcomes.drop_first(), k - 1);
    }
}

/// Whether `e` is the error event for the `failures`-th failed attempt with
/// underlying message `msg`, while further attempts remain.
pub open spec fn is_retry_error(e: DownloadEvent, failures: int, msg: Seq<char>) -> bool {
    e matches DownloadEvent::Error(m) && m@ == retry_message_spec(failures, msg)
}

/// What one logical download emits and returns, as a function of its attempt
/// outcomes: `k` failures yield `k` error events (retry messages while
/// attempts remain, an exhaustion message on the last allowed attempt), and
/// an eventual success yields exactly one terminal `Complete` event carrying
/// the downloaded path.
pub open spec fn fetch_postcondition(
    outcomes: Seq<AttemptOutcome>,
    events: Seq<DownloadEvent>,
    result: Option<String>,
) -> bool {
    let k = leading_failures(outcomes);
    &&& (k < MAX_RETRIES ==> {
        &&& events.len() == k + 1
        &&& (forall|i: int|
            0 <= i < k ==> is_retry_error(#[trigger] events[i], i + 1, outcomes[i]->Failure_0@))
        &&& (events[k] matches DownloadEvent::Complete(p) && p@ == outcomes[k]->Success_0@)
        &&& (result matches Some(p) && p@ == outcomes[k]->Success_0@)
    })
    &&& (k >= MAX_RETRIES ==> {
        &&& events.len() == MAX_RETRIES
        &&& (forall|i: int|
            0 <= i < MAX_RETRIES - 1 ==> is_retry_error(
                #[trigger] events[i],
                i + 1,
                outcomes[i]->Failure_0@,
            ))
        &&& (events[MAX_RETRIES - 1] matches DownloadEvent::Error(m) && m@
            == exhausted_message_spec(outcomes[MAX_RETRIES - 1]->Failure_0@))
        &&& result is None
    })
}

/// There are enough outcomes to drive the download to its end: either the
/// first `MAX_RETRIES` attempts all fail, or a success comes before that.
pub open spec fn sufficient_outcomes(outcomes: Seq<AttemptOutcome>) -> bool {
    leading_failures(outcomes) >= MAX_RETRIES || leading_failures(outcomes) < outcomes.len()
}

impl Downloader {
    /// Runs one logical download over the given attempt outcomes, consuming
    /// them in order: at most `MAX_RETRIES` attempts, stopping early at the
    /// first success. Returns the events emitted, in order, and the
    /// downloaded path if the download succeeded. The transfer behind each
    /// attempt is the caller's; `AttemptTracker` accounts one attempt's
    /// stream.
    pub fn download_file(&self, outcomes: &Vec<AttemptOutcome>) -> (r: (
        Vec<DownloadEvent>,
        Option<String>,
    ))
        requires
            sufficient_outcomes(outcomes@),
        ensures
            fetch_postcondition(outcomes@, r.0@, r.1),
    {
        proof {
            lemma_lf_bound(outcomes@);
        }
        let mut events: Vec<DownloadEvent> = Vec::new();
        let mut i: usize = 0;
        loop
            invariant
                0 <= i < MAX_RETRIES,
                sufficient_outcomes(outcomes@),
                i <= leading_failures(outcomes@),
                events@.len() == i,
                forall|j: int| 0 <= j < i ==> outcomes@[j] is Failure,
                forall|j: int|
                    0 <= j < i ==> is_retry_error(
                        #[trigger] events@[j],
                        j + 1,
                        outcomes@[j]->Failure_0@,
                    ),
            decreases MAX_RETRIES - i,
        {
            proof {
                lemma_lf_bound(outcomes@);
                assert(i < outcomes@.len());
            }
            match &outcomes[i] {
                AttemptOutcome::Success(path) => {
                    proof {
                        lemma_lf_exact(outcomes@, i as int);
                    }
                    events.push(DownloadEvent::Complete(path.clone()));
                    return (events, Some(path.clone()));
                },
                AttemptOutcome::Failure(msg) => {
                    let failures: u64 = (i as u64) + 1;
                    let (emsg, retrying) = on_attempt_failure(failures, msg.as_str());
                    events.push(DownloadEvent::Error(emsg));
                    if retrying {
                        proof {
                            lemma_lf_at_least(outcomes@, i + 1 as int);
                        }
                        i += 1;
                    } else {
                        proof {
                            lemma_lf_at_least(outcomes@, MAX_RETRIES as int);
                        }
                        return (events, None);
                    }
                },
            }
        }
    }
}

/// How many of the events are error events.
pub open spec fn count_errors(events: Seq<DownloadEvent>) -> int
    decreases events.len(),
{
    if events.len() == 0 {
        0
    } else {
        (if events[0] is Error {
            1int
        } else {
            0int
        }) + count_errors(events.drop_first())
    }
}

proof fn lemma_count_errors_run(events: Seq<DownloadEvent>, k: int)
    requires
        0 <= k,
        events.len() == k + 1,
        forall|i: int| 0 <= i < k ==> events[i] is Error,
        !(events[k] is Error),
    ensures
        count_errors(events) == k,
    decreases k,
{
    if k == 0 {
        assert(count_errors(events.drop_first()) == 0);
    } else {
        lemma_count_errors_run(events.drop_first(), k - 1);
    }
}

proof fn lemma_count_errors_all(events: Seq<DownloadEvent>)
    requires
        forall|i: int| 0 <= i < events.len() ==> events[i] is Error,
    ensures
        count_errors(events) == events.len(),
    decreases events.len(),
{
    if events.len() > 0 {
        lemma_count_errors_all(events.drop_first());
    }
}

/// A fetch whose first `k < MAX_RETRIES` attempts fail and whose next attempt
/// succeeds emits exactly `k` error events followed by exactly one `Complete`
/// event, makes `k + 1` attempts, and returns the downloaded path.
pub proof fn lemma_fetch_retries_then_succeeds(
    outcomes: Seq<AttemptOutcome>,
    events: Seq<DownloadEvent>,
    result: Option<String>,
    k: int,
)
    requires
        0 <= k < MAX_RETRIES,
        k < outcomes.len(),
        forall|i: int| 0 <= i < k ==> outcomes[i] is Failure,
        outcomes[k] is Success,
        fetch_postcondition(outcomes, events, result),
    ensures
        events.len() == k + 1,
        count_errors(events) == k,
        forall|i: int| 0 <= i < k ==> events[i] is Error,
        events[k] is Complete,
        result is Some,
{
    lemma_lf_exact(outcomes, k);
    lemma_count_errors_run(events, k);
}

/// A fetch whose attempts all fail emits exactly `MAX_RETRIES` error events,
/// no `Complete` event, and returns no path: the failure is terminal for the
/// caller, retries being fully contained in the fetcher.
pub proof fn lemma_fetch_exhausts_retries(
    outcomes: Seq<AttemptOutcome>,
    events: Seq<DownloadEvent>,
    result: Option<String>,
)
    requires
        outcomes.len() >= MAX_RETRIES,
        forall|i: int| 0 <= i < MAX_RETRIES ==> outcomes[i] is Failure,
        fetch_postcondition(outcomes, events, result),
    ensures
        events.len() == MAX_RETRIES,
        count_errors(events) == MAX_RETRIES,
        forall|i: int| 0 <= i < events.len() ==> !(events[i] is Complete),
        result is None,
{
    lemma_lf_at_least(outcomes, MAX_RETRIES as int);
    lemma_count_errors_all(events);
}

/// Progress as an integer percentage of the declared total, capped at 100.
pub open spec fn percent_spec(downloaded: int, total: int) -> int
    recommends
        total > 0,
{
    if downloaded >= total {
        100
    } else {
        downloaded * 100 / total
    }
}

/// The failure message reported when the stream ended short of (or past) the
/// declared content length.
pub open spec fn mismatch_message_spec(total: int, downloaded: int) -> Seq<char> {
    "Download incomplete: expected "@ + dec_spec(total) + " bytes, got "@ + dec_spec(downloaded)
        + " bytes"@
}

/// Byte accounting for one attempt: how much has been streamed to disk
/// against the content length the server declared (zero when it declared
/// none, in which case progress events are withheld).
pub struct AttemptTracker {
    pub total: u64,
    pub downloaded: u64,
}

impl AttemptTracker {
    /// Begins one attempt given the content length the server declared.
    pub fn begin(content_length: Option<u64>) -> (t: AttemptTracker)
        ensures
            t.total == (match content_length {
                Option::Some(n) => n,
                Option::None => 0u64,
            }),
            t.downloaded == 0,
    {
        AttemptTracker {
            total: match content_length {
                Option::Some(n) => n,
                Option::None => 0,
            },
            downloaded: 0,
        }
    }

    /// Accounts one received chunk; returns the progress percentage to emit
    /// after it, or nothing when no content length was declared (a percentage
    /// must not be fabricated then).
    pub fn on_chunk(&mut self, len: u64) -> (p: Option<u64>)
        requires
            old(self).downloaded + len <= u64::MAX,
        ensures
            final (self).total == old(self).total,
            final (self).downloaded == old(self).downloaded + len,
            old(self).total > 0 ==> p == Some(
                percent_spec(final (self).downloaded as int, final (self).total as int) as u64,
            ),
            old(self).total == 0 ==> p is None,
    {
        self.downloaded = self.downloaded + len;
        if self.total > 0 {
            let pct: u64 = if self.downloaded >= self.total {
                100
            } else {
                proof {
                    assert((self.downloaded as int) * 100 / (self.total as int) < 100)
                        by (nonlinear_arith)
                        requires
                            0 <= self.downloaded < self.total,
                    ;
                }
                (((self.downloaded as u128) * 100) / (self.total as u128)) as u64
            };
            Some(pct)
        } else {
            None
        }
    }

    /// Whether the bytes streamed match the declared content length (always,
    /// when none was declared): a mismatch is an attempt failure even though
    /// the transfer itself reported success.
    pub fn is_complete(&self) -> (r: bool)
        ensures
            r == (self.total == 0 || self.downloaded == self.total),
    {
        self.total == 0 || self.downloaded == self.total
    }

    /// The attempt-failure message for a size mismatch.
    pub fn mismatch_message(&self) -> (r: String)
        ensures
            r@ == mismatch_message_spec(self.total as int, self.downloaded as int),
    {
        let mut out: Vec<char> = Vec::new();
        append_str(&mut out, "Download incomplete: expected ");
        push_decimal(&mut out, self.total);
        append_str(&mut out, " bytes, got ");
        push_decimal(&mut out, self.downloaded);
        append_str(&mut out, " bytes");
        proof {
            assert(out@ =~= mismatch_message_spec(self.total as int, self.downloaded as int));
        }
        chars_to_string(&out)
    }
}

} // verus!
