use vstd::prelude::*;
use crate::errors::ErrorKind;

verus! {

/// The reason for which the process shuts down.
#[derive(Clone, Copy, Debug, PartialEq, Eq, Structural)]
pub enum ExitEvent {
    ExitSignal,
    InternetConnected,
    WiFiConnected,
    Timeout,
    UnexpectedExit,
}

/// The line that the orchestrator logs for an exit event.
pub open spec fn exit_message_text(event: ExitEvent) -> Seq<char> {
    match event {
        ExitEvent::ExitSignal => "Exiting: Signal"@,
        ExitEvent::InternetConnected => "Exiting: Internet connected"@,
        ExitEvent::WiFiConnected => "Exiting: WiFi connected"@,
        ExitEvent::Timeout => "Exiting: Timeout"@,
        ExitEvent::UnexpectedExit => "Exiting: Unexpectedly"@,
    }
}

/// The line that the orchestrator logs for an exit event.
pub fn exit_message(event: ExitEvent) -> (line: &'static str)
    ensures
        line@ == exit_message_text(event),
{
    match event {
        ExitEvent::ExitSignal => "Exiting: Signal",
        ExitEvent::InternetConnected => "Exiting: Internet connected",
        ExitEvent::WiFiConnected => "Exiting: WiFi connected",
        ExitEvent::Timeout => "Exiting: Timeout",
        ExitEvent::UnexpectedExit => "Exiting: Unexpectedly",
    }
}

/// What the orchestrator's side of the exit channel has seen. Any number of
/// threads may post an outcome; the first one posted is the one that counts,
/// and whatever is posted after it changes nothing.
pub struct ExitLatch {
    observed: Option<Result<ExitEvent, ErrorKind>>,
}

impl View for ExitLatch {
    type V = Option<Result<ExitEvent, ErrorKind>>;

    closed spec fn view(&self) -> Option<Result<ExitEvent, ErrorKind>> {
        self.observed
    }
}

/// The outcome that is observed when `posts` arrive in this order on a latch
/// that has seen `seen` so far.
pub open spec fn observed_after(
    seen: Option<Result<ExitEvent, ErrorKind>>,
    posts: Seq<Result<ExitEvent, ErrorKind>>,
) -> Option<Result<ExitEvent, ErrorKind>>
    decreases posts.len(),
{
    if posts.len() == 0 {
        seen
    } else {
        observed_after(
            match seen {
                Some(first) => Some(first),
                None => Some(posts[0]),
            },
            posts.drop_first(),
        )
    }
}

impl ExitLatch {
    /// A latch on which nothing was posted yet.
    pub fn new() -> (latch: ExitLatch)
        ensures
            latch@ is None,
    {
        ExitLatch { observed: None }
    }

    /// Posts an outcome. It is taken if none was posted before, and dropped
    /// otherwise; the result says which.
    pub fn post(&mut self, outcome: Result<ExitEvent, ErrorKind>) -> (taken: bool)
        ensures
            taken == (old(self)@ is None),
            final(self)@ == observed_after(old(self)@, seq![outcome]),
            old(self)@ is None ==> final(self)@ == Some(outcome),
            old(self)@ is Some ==> final(self)@ == old(self)@,
    {
        proof {
            reveal_with_fuel(observed_after, 2);
            assert(seq![outcome].drop_first().len() == 0);
        }
        match self.observed {
            Some(_) => false,
            None => {
                self.observed = Some(outcome);
                true
            },
        }
    }

    /// The outcome that counts, once one was posted.
    pub fn observed(&self) -> (outcome: Option<Result<ExitEvent, ErrorKind>>)
        ensures
            outcome == self@,
    {
        self.observed
    }
}

/// However many outcomes are posted, and by whomever, exactly the first is
/// observed: an empty latch ends up holding the first post, and a latch that
/// holds an outcome keeps it.
pub proof fn lemma_first_post_wins(
    seen: Option<Result<ExitEvent, ErrorKind>>,
    posts: Seq<Result<ExitEvent, ErrorKind>>,
)
    ensures
        seen is Some ==> observed_after(seen, posts) == seen,
        seen is None && posts.len() > 0 ==> observed_after(seen, posts) == Some(posts[0]),
        seen is None && posts.len() == 0 ==> observed_after(seen, posts) is None,
    decreases posts.len(),
{
    if posts.len() > 0 {
        let next = match seen {
            Some(first) => Some(first),
            None => Some(posts[0]),
        };
        lemma_first_post_wins(next, posts.drop_first());
    }
}

} // verus!
