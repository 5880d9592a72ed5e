use vstd::prelude::*;

use crate::error::NotifierError;
use crate::mail::{extract_count, has_selected, selected_count, FolderSelector, MailInfo};

verus! {

/// The status a successful response carries.
pub const SUCCESS_STATUS: u32 = 0;

/// The status by which the server reports an unrecoverable condition (such as
/// rejected credentials): it stops the polling loop.
pub const FATAL_STATUS: u32 = 103;

/// Seconds between the startup poll and the first polling cycle.
pub const SETTLE_DELAY_SECS: u64 = 10;

/// Seconds the signal stays asserted once a cycle has raised it.
pub const SIGNAL_HOLD_SECS: u64 = 10;

/// Seconds between two polling cycles.
pub const POLL_INTERVAL_SECS: u64 = 10;

/// The physical output: asserted while a new-mail pulse lasts.
#[derive(Debug, Clone, Copy, PartialEq, Eq, Structural)]
pub enum Led {
    On,
    Off,
}

/// The loop's whole mutable state: the baseline count (the highest unread
/// count seen so far) and the current signal state.
#[derive(Debug, Clone, Copy, PartialEq, Eq, Structural)]
pub struct NotifierState {
    pub baseline: u32,
    pub led: Led,
}

/// The baseline after `count` has been observed: it moves only up.
pub open spec fn next_baseline(baseline: u32, count: u32) -> u32 {
    if count > baseline {
        count
    } else {
        baseline
    }
}

/// The baseline after the counts have been observed one by one from `baseline`.
pub open spec fn baseline_after(baseline: u32, counts: Seq<u32>) -> u32
    decreases counts.len(),
{
    if counts.len() == 0 {
        baseline
    } else {
        next_baseline(baseline_after(baseline, counts.drop_last()), counts.last())
    }
}

/// Over any run of observations the baseline is the peak: never below where it
/// started nor below any observed count, and equal to one of these.
pub proof fn lemma_baseline_is_peak(baseline: u32, counts: Seq<u32>)
    ensures
        baseline_after(baseline, counts) >= baseline,
        forall|i: int| 0 <= i < counts.len() ==> counts[i] <= baseline_after(baseline, counts),
        baseline_after(baseline, counts) == baseline || exists|i: int|
            0 <= i < counts.len() && counts[i] == baseline_after(baseline, counts),
    decreases counts.len(),
{
    if counts.len() > 0 {
        let prev = counts.drop_last();
        lemma_baseline_is_peak(baseline, prev);
        let b = baseline_after(baseline, prev);
        if b != baseline {
            let k = choose|k: int| 0 <= k < prev.len() && prev[k] == b;
            assert(counts[k] == b);
        }
        assert(counts[counts.len() - 1] == counts.last());
        assert forall|i: int| 0 <= i < counts.len() implies counts[i] <= baseline_after(
            baseline,
            counts,
        ) by {
            if i < prev.len() {
                assert(prev[i] == counts[i]);
            }
        }
    }
}

/// A count raises the signal exactly when it is above the starting baseline
/// and above every count observed before it: mail already counted is never
/// signalled again.
pub proof fn lemma_signal_iff_new_peak(baseline: u32, counts: Seq<u32>, i: int)
    requires
        0 <= i < counts.len(),
    ensures
        (counts[i] > baseline_after(baseline, counts.take(i))) <==> (counts[i] > baseline
            && forall|j: int| 0 <= j < i ==> counts[j] < counts[i]),
{
    let prev = counts.take(i);
    lemma_baseline_is_peak(baseline, prev);
    if counts[i] > baseline && forall|j: int| 0 <= j < i ==> counts[j] < counts[i] {
        let b = baseline_after(baseline, prev);
        if b != baseline {
            let k = choose|k: int| 0 <= k < prev.len() && prev[k] == b;
            assert(counts[k] == prev[k]);
        }
    }
    if counts[i] > baseline_after(baseline, prev) {
        assert forall|j: int| 0 <= j < i implies counts[j] < counts[i] by {
            assert(prev[j] == counts[j]);
        }
    }
}

/// Whether a server-reported status ends the polling loop.
pub open spec fn is_fatal_status(status: u32) -> bool {
    status == FATAL_STATUS
}

/// `r` reports the server's own error of `info`, status and text kept.
pub open spec fn reports_server_error<T>(r: Result<T, NotifierError>, info: MailInfo) -> bool {
    match r {
        Err(NotifierError::ServerReported { status, text }) => status == info.message.status
            && text@ == info.message.text@,
        _ => false,
    }
}

impl NotifierError {
    /// Whether the error ends the polling loop. A server-reported status other
    /// than `FATAL_STATUS` is transient: the cycle is skipped and polling goes on.
    pub fn is_fatal(&self) -> (r: bool)
        ensures
            r == match self {
                NotifierError::ServerReported { status, .. } => is_fatal_status(*status),
                _ => true,
            },
    {
        match self {
            NotifierError::ServerReported { status, .. } => *status == FATAL_STATUS,
            _ => true,
        }
    }
}

impl NotifierState {
    /// A state with the given baseline and the signal off.
    pub fn new(baseline: u32) -> (r: NotifierState)
        ensures
            r.baseline == baseline,
            r.led == Led::Off,
    {
        NotifierState { baseline, led: Led::Off }
    }

    /// Whether the signal is asserted.
    pub fn is_signaling(&self) -> (r: bool)
        ensures
            r == (self.led == Led::On),
    {
        self.led == Led::On
    }

    /// Takes one observed count: raises the signal and moves the baseline up to
    /// `count` exactly when `count` is above the baseline; otherwise nothing
    /// changes. Returns whether the signal was raised.
    pub fn observe(&mut self, count: u32) -> (signal: bool)
        ensures
            signal == (count > old(self).baseline),
            final(self).baseline == next_baseline(old(self).baseline, count),
            final(self).led == (if signal {
                Led::On
            } else {
                old(self).led
            }),
    {
        if count > self.baseline {
            self.baseline = count;
            self.led = Led::On;
            true
        } else {
            false
        }
    }

    /// Ends a cycle: the signal is cleared whether or not it was raised, and
    /// the baseline is kept.
    pub fn end_cycle(&mut self)
        ensures
            final(self).led == Led::Off,
            final(self).baseline == old(self).baseline,
    {
        self.led = Led::Off;
    }
}

/// The error that carries `info`'s own status and diagnostic text.
fn server_error(info: &MailInfo) -> (r: NotifierError)
    ensures
        reports_server_error::<()>(Err(r), *info),
{
    NotifierError::ServerReported { status: info.message.status, text: info.message.text.clone() }
}

impl NotifierState {
    /// The startup poll: any nonzero status is an error (there is no baseline
    /// to fall back on yet); otherwise the selected folder's count becomes the
    /// baseline, with the signal off.
    pub fn start(info: &MailInfo, selector: &FolderSelector) -> (r: Result<
        NotifierState,
        NotifierError,
    >)
        ensures
            info.message.status != SUCCESS_STATUS ==> reports_server_error(r, *info),
            info.message.status == SUCCESS_STATUS ==> (r is Ok <==> has_selected(
                info.mail.folders@,
                *selector,
            )),
            info.message.status == SUCCESS_STATUS ==> match r {
                Ok(s) => s.baseline == selected_count(info.mail.folders@, *selector) && s.led
                    == Led::Off,
                Err(e) => e is FolderNotFound,
            },
    {
        if info.message.status != SUCCESS_STATUS {
            return Err(server_error(info));
        }
        match extract_count(&info.mail.folders, selector) {
            Ok(count) => Ok(NotifierState::new(count)),
            Err(e) => Err(e),
        }
    }

    /// One polling cycle on a fresh response. A nonzero status is reported as
    /// `ServerReported` (fatal or not, see `NotifierError::is_fatal`) and a
    /// missing folder as `FolderNotFound`; in both cases the state is left as
    /// it was and no signal is raised. Otherwise the selected folder's count is
    /// observed, and the result tells whether the signal was raised.
    pub fn poll_cycle(&mut self, info: &MailInfo, selector: &FolderSelector) -> (r: Result<
        bool,
        NotifierError,
    >)
        ensures
            info.message.status != SUCCESS_STATUS ==> reports_server_error(r, *info),
            info.message.status == SUCCESS_STATUS ==> (r is Ok <==> has_selected(
                info.mail.folders@,
                *selector,
            )),
            r is Err ==> *final(self) == *old(self),
            match r {
                Ok(signal) => {
                    let count = selected_count(info.mail.folders@, *selector);
                    &&& signal == (count > old(self).baseline)
                    &&& final(self).baseline == next_baseline(old(self).baseline, count)
                    &&& final(self).led == (if signal {
                        Led::On
                    } else {
                        old(self).led
                    })
                },
                Err(e) => info.message.status == SUCCESS_STATUS ==> e is FolderNotFound,
            },
    {
        if info.message.status != SUCCESS_STATUS {
            return Err(server_error(info));
        }
        match extract_count(&info.mail.folders, selector) {
            Ok(count) => Ok(self.observe(count)),
            Err(e) => Err(e),
        }
    }
}

} // verus!
