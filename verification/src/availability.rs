//! Whether a source of data answers, and when that is worth a line in the log.

use vstd::prelude::*;

verus! {

/// What was last reported of a source, so that only changes are logged.
#[derive(Debug)]
pub struct AvailabilityState {
    ok: Option<bool>,
}

impl View for AvailabilityState {
    type V = Option<bool>;

    /// The last report, if there was one.
    closed spec fn view(&self) -> Option<bool> {
        self.ok
    }
}

/// What a report is worth: the report itself if it differs from the last one or is the first, and
/// nothing otherwise.
pub open spec fn news(last: Option<bool>, ok: bool) -> Option<bool> {
    if last == Some(ok) {
        None
    } else {
        Some(ok)
    }
}

impl AvailabilityState {
    /// Nothing was reported yet.
    pub fn new() -> (state: Self)
        ensures
            state@ == None::<bool>,
    {
        AvailabilityState { ok: None }
    }

    /// Takes in a report, and gives it back if it is news.
    pub fn note(&mut self, ok: bool) -> (change: Option<bool>)
        ensures
            final(self)@ == Some(ok),
            change == news(old(self)@, ok),
    {
        let same: bool = match self.ok {
            Some(last) => last == ok,
            None => false,
        };
        if same {
            None
        } else {
            self.ok = Some(ok);
            Some(ok)
        }
    }
}

impl Default for AvailabilityState {
    fn default() -> (state: Self)
        ensures
            state@ == None::<bool>,
    {
        AvailabilityState::new()
    }
}

/// The news in a row of reports that starts with nothing reported.
pub open spec fn all_news(reports: Seq<bool>) -> Seq<bool>
    decreases reports.len(),
{
    if reports.len() == 0 {
        Seq::empty()
    } else {
        let last = if reports.len() == 1 {
            None
        } else {
            Some(reports[reports.len() - 2])
        };
        match news(last, reports.last()) {
            Some(ok) => all_news(reports.drop_last()).push(ok),
            None => all_news(reports.drop_last()),
        }
    }
}

/// A row of reports is logged change by change: the first report is news, the last piece of news is
/// always the present state, and no two pieces of news in a row are the same.
pub proof fn news_alternates(reports: Seq<bool>)
    ensures
        reports.len() == 0 <==> all_news(reports).len() == 0,
        reports.len() > 0 ==> all_news(reports)[0] == reports[0] && all_news(reports).last()
            == reports.last(),
        forall|i: int|
            0 <= i < all_news(reports).len() - 1 ==> #[trigger] all_news(reports)[i] != all_news(
                reports,
            )[i + 1],
    decreases reports.len(),
{
    if reports.len() > 0 {
        news_alternates(reports.drop_last());
    }
}

/// A report is news exactly where the last one was not the same, and news is the report itself.
pub proof fn news_is_a_change(last: Option<bool>, ok: bool)
    ensures
        news(last, ok) is Some <==> last != Some(ok),
        news(last, ok) is Some ==> news(last, ok) == Some(ok),
{
}

} // verus!
