use vstd::prelude::*;

verus! {

/// The viewer counts of the four platforms; a platform that was not asked,
/// or whose request failed or timed out, has no count.
#[derive(Debug, PartialEq, Eq, Structural, Clone, Copy)]
pub struct ViewerCounts {
    twitch: Option<u64>,
    kick: Option<u64>,
    vk: Option<u64>,
    youtube: Option<u64>,
}

impl View for ViewerCounts {
    type V = (Option<u64>, Option<u64>, Option<u64>, Option<u64>);

    /// The counts of Twitch, Kick, VK and YouTube, in that order.
    closed spec fn view(&self) -> Self::V {
        (self.twitch, self.kick, self.vk, self.youtube)
    }
}

/// Two values of `ViewerCounts` are equal exactly when their counts are.
pub proof fn lemma_counts_view_injective(a: ViewerCounts, b: ViewerCounts)
    ensures
        (a@ == b@) <==> a == b,
{
}

impl ViewerCounts {
    /// Gathers the four per-platform results.
    pub fn new(twitch: Option<u64>, kick: Option<u64>, vk: Option<u64>, youtube: Option<u64>) -> (res: Self)
        ensures
            res@ == (twitch, kick, vk, youtube),
    {
        ViewerCounts { twitch, kick, vk, youtube }
    }

    /// Whether the two differ in any count.
    pub fn differs(&self, other: &Self) -> (res: bool)
        ensures
            res == (self@ != other@),
    {
        *self != *other
    }

    /// The Twitch count.
    pub fn twitch(&self) -> (res: Option<u64>)
        ensures
            res == self@.0,
    {
        self.twitch
    }

    /// The Kick count.
    pub fn kick(&self) -> (res: Option<u64>)
        ensures
            res == self@.1,
    {
        self.kick
    }

    /// The VK count.
    pub fn vk(&self) -> (res: Option<u64>)
        ensures
            res == self@.2,
    {
        self.vk
    }

    /// The YouTube count.
    pub fn youtube(&self) -> (res: Option<u64>)
        ensures
            res == self@.3,
    {
        self.youtube
    }

    /// The counts that the four requests ended with, each platform in its place.
    pub fn from_outcomes(twitch: FetchOutcome, kick: FetchOutcome, vk: FetchOutcome, youtube: FetchOutcome) -> (res: Self)
        ensures
            res@ == (outcome_count(twitch), outcome_count(kick), outcome_count(vk), outcome_count(youtube)),
    {
        ViewerCounts::new(count_of(twitch), count_of(kick), count_of(vk), count_of(youtube))
    }
}

impl ViewerCounts {
    /// No count for any platform.
    pub open spec fn spec_default() -> ViewerCounts {
        ViewerCounts::spec_new(None, None, None, None)
    }

    pub closed spec fn spec_new(twitch: Option<u64>, kick: Option<u64>, vk: Option<u64>, youtube: Option<u64>) -> ViewerCounts {
        ViewerCounts { twitch, kick, vk, youtube }
    }
}

impl Default for ViewerCounts {
    /// No count for any platform.
    fn default() -> (res: Self)
        ensures
            res == ViewerCounts::spec_default(),
            res@ == (None::<u64>, None::<u64>, None::<u64>, None::<u64>),
    {
        ViewerCounts { twitch: None, kick: None, vk: None, youtube: None }
    }
}

/// How the request to one platform ended.
#[derive(Debug, PartialEq, Eq, Structural, Clone, Copy)]
pub enum FetchOutcome {
    /// The platform is not set up, or no user was given for it: nothing was asked.
    Skipped,
    /// No answer came within the timeout.
    TimedOut,
    /// The request failed, or the answer held no count.
    Failed,
    /// The platform answered with this count.
    Fetched(u64),
}

pub open spec fn outcome_count(outcome: FetchOutcome) -> Option<u64> {
    match outcome {
        FetchOutcome::Fetched(n) => Some(n),
        _ => None,
    }
}

/// The count that a request outcome gives: only a request that answered in
/// time with a count gives one.
pub fn count_of(outcome: FetchOutcome) -> (res: Option<u64>)
    ensures
        res == outcome_count(outcome),
        outcome matches FetchOutcome::Fetched(n) ==> res == Some(n),
        !(outcome is Fetched) ==> res is None,
{
    match outcome {
        FetchOutcome::Fetched(n) => Some(n),
        _ => None,
    }
}

/// The user to ask a platform about: there is one only when the platform is
/// set up and a user is given for it.
pub fn fetch_target<'a>(configured: bool, user: Option<&'a str>) -> (res: Option<&'a str>)
    ensures
        res == (if configured { user } else { None }),
{
    if configured {
        user
    } else {
        None
    }
}

/// The credentials to set a platform up with: a client id and a secret, and
/// only when the client id, the secret and the user are all given.
pub fn platform_credentials<'a>(client_id: Option<&'a str>, secret: Option<&'a str>, user: Option<&str>) -> (res:
    Option<(&'a str, &'a str)>)
    ensures
        res == (match (client_id, secret, user) {
            (Some(id), Some(s), Some(_)) => Some((id, s)),
            _ => None,
        }),
{
    match (client_id, secret, user) {
        (Some(id), Some(s), Some(_)) => Some((id, s)),
        _ => None,
    }
}

/// Every count that arrives in time is kept as it is, zero included, and
/// only such a count gives one: timeouts, failures and skipped platforms give
/// none.
pub proof fn lemma_fetched_count_is_kept(n: u64, twitch: FetchOutcome, kick: FetchOutcome, vk: FetchOutcome, youtube: FetchOutcome)
    ensures
        outcome_count(FetchOutcome::Fetched(n)) == Some(n),
        outcome_count(FetchOutcome::Skipped) is None,
        outcome_count(FetchOutcome::TimedOut) is None,
        outcome_count(FetchOutcome::Failed) is None,
        outcome_count(twitch) is Some <==> twitch is Fetched,
        outcome_count(kick) is Some <==> kick is Fetched,
        outcome_count(vk) is Some <==> vk is Fetched,
        outcome_count(youtube) is Some <==> youtube is Fetched,
{
}

/// Remembers the counts last shown, so that a new line is shown only when
/// the counts changed.
pub struct CountsTracker {
    last: ViewerCounts,
}

impl View for CountsTracker {
    type V = ViewerCounts;

    /// The counts last shown.
    closed spec fn view(&self) -> ViewerCounts {
        self.last
    }
}

/// Showing `new` after `last`: whether a line is due, and what is remembered after.
pub open spec fn observed(last: ViewerCounts, new: ViewerCounts) -> (bool, ViewerCounts) {
    (last != new, new)
}

impl CountsTracker {
    /// Nothing shown yet: the remembered counts have no count at all.
    pub fn new() -> (res: Self)
        ensures
            res@ == ViewerCounts::spec_default(),
            res@@ == (None::<u64>, None::<u64>, None::<u64>, None::<u64>),
    {
        CountsTracker { last: ViewerCounts::default() }
    }

    /// Takes the counts of a new poll; true when they differ from those last
    /// shown, which are then the new ones.
    pub fn observe(&mut self, new: ViewerCounts) -> (changed: bool)
        ensures
            (changed, final(self)@) == observed(old(self)@, new),
            changed == (old(self)@@ != new@),
            final(self)@ == new,
    {
        let changed = self.last.differs(&new);
        if changed {
            self.last = new;
        }
        proof {
            lemma_counts_view_injective(old(self)@, new);
        }
        changed
    }
}

/// A line is due exactly when the new counts differ from those last shown in
/// any of the four platforms (a change of the VK or YouTube count alone is
/// shown too), and the new counts are remembered whether or not they changed.
pub proof fn lemma_observe_shows_every_change(last: ViewerCounts, new: ViewerCounts)
    ensures
        observed(last, new).0 <==> (last@.0 != new@.0 || last@.1 != new@.1 || last@.2 != new@.2
            || last@.3 != new@.3),
        observed(last, new).1@ == new@,
{
    lemma_counts_view_injective(last, new);
}

/// Counts that did not change are not shown again: after a poll has been
/// taken, taking the same counts once more shows nothing.
pub proof fn lemma_unchanged_counts_are_not_shown(last: ViewerCounts, new: ViewerCounts)
    ensures
        !observed(observed(last, new).1, new).0,
        observed(observed(last, new).1, new).1 == new,
{
}

} // verus!
