//! Discovery: the client looks at the bus's name registry once a second until
//! the service's name is there. Nothing bounds the wait.

use vstd::prelude::*;
use crate::protocol::{ConnectionFault, OutOfTurn, DISCOVERY_INTERVAL_SECS};
use crate::text::same_text;

verus! {

/// Where the discovery stands.
#[derive(Clone, Copy, Debug, PartialEq, Eq)]
pub enum DiscoveryPhase {
    /// Before the first look at the registry, or asleep between two.
    Waiting,
    /// The registry has been asked for its names.
    Listing,
    /// The service's name was in the registry.
    Found,
    /// The registry could not be read.
    Failed,
}

/// What the program does next on the discovery's behalf.
#[derive(Clone, Copy, Debug, PartialEq, Eq)]
pub enum DiscoveryAction {
    /// Ask the registry for the names on the bus and hand them over.
    ListNames,
    /// Sleep for this many seconds, then look again.
    Sleep(u64),
    /// The service is there: go on and bind to it.
    Proceed,
    /// The registry could not be read: give up.
    Abort,
}

/// The names of a listing as sequences of characters.
pub open spec fn names_of(names: Seq<String>) -> Seq<Seq<char>> {
    names.map_values(|name: String| name@)
}

/// A listing as the registry gave it, with its names as sequences of
/// characters.
pub open spec fn listing_of(listing: Result<Vec<String>, ConnectionFault>) -> Result<
    Seq<Seq<char>>,
    ConnectionFault,
> {
    match listing {
        Ok(names) => Ok(names_of(names@)),
        Err(fault) => Err(fault),
    }
}

/// What follows from a listing while `target` is looked for.
pub open spec fn listing_answer(
    target: Seq<char>,
    listing: Result<Seq<Seq<char>>, ConnectionFault>,
) -> DiscoveryAction {
    match listing {
        Ok(names) => if names.contains(target) {
            DiscoveryAction::Proceed
        } else {
            DiscoveryAction::Sleep(DISCOVERY_INTERVAL_SECS)
        },
        Err(_) => DiscoveryAction::Abort,
    }
}

/// The phase in which an answer to a listing leaves the discovery.
pub open spec fn phase_after(answer: DiscoveryAction) -> DiscoveryPhase {
    match answer {
        DiscoveryAction::Proceed => DiscoveryPhase::Found,
        DiscoveryAction::Sleep(_) => DiscoveryPhase::Waiting,
        DiscoveryAction::Abort => DiscoveryPhase::Failed,
        DiscoveryAction::ListNames => DiscoveryPhase::Listing,
    }
}

/// Whether `target` is among `names`.
pub fn service_listed(names: &Vec<String>, target: &str) -> (listed: bool)
    ensures
        listed == names_of(names@).contains(target@),
{
    let mut i: usize = 0;
    while i < names.len()
        invariant
            i <= names.len(),
            forall|j: int| 0 <= j < i ==> names_of(names@)[j] != target@,
        decreases names.len() - i,
    {
        if same_text(names[i].as_str(), target) {
            assert(names_of(names@)[i as int] == target@);
            return true;
        }
        i += 1;
    }
    false
}

/// The search for one service on the bus.
#[derive(Debug, PartialEq, Eq)]
pub struct Discovery {
    pub target: String,
    pub phase: DiscoveryPhase,
}

impl Discovery {
    /// A discovery of the service named `target` that has not looked yet.
    pub fn new(target: String) -> (discovery: Discovery)
        ensures
            discovery.target@ == target@,
            discovery.phase == DiscoveryPhase::Waiting,
    {
        Discovery { target, phase: DiscoveryPhase::Waiting }
    }

    /// The discovery's turn has come, at start or after a sleep: it asks for
    /// the names on the bus. In any other phase the answer is `OutOfTurn`.
    pub fn look(&mut self) -> (answer: Result<DiscoveryAction, OutOfTurn>)
        ensures
            final(self).target@ == old(self).target@,
            match old(self).phase {
                DiscoveryPhase::Waiting => {
                    &&& answer == Ok::<DiscoveryAction, OutOfTurn>(DiscoveryAction::ListNames)
                    &&& final(self).phase == DiscoveryPhase::Listing
                },
                _ => answer is Err && *final(self) == *old(self),
            },
    {
        match self.phase {
            DiscoveryPhase::Waiting => {
                self.phase = DiscoveryPhase::Listing;
                Ok(DiscoveryAction::ListNames)
            },
            _ => Err(OutOfTurn),
        }
    }

    /// The registry has answered. The discovery proceeds if the target is
    /// among the names, sleeps for the interval if it is not, and gives up if
    /// the registry could not be read. Where no listing was asked for, the
    /// answer is `OutOfTurn`.
    pub fn listed(&mut self, listing: Result<Vec<String>, ConnectionFault>) -> (answer: Result<
        DiscoveryAction,
        OutOfTurn,
    >)
        ensures
            final(self).target@ == old(self).target@,
            match old(self).phase {
                DiscoveryPhase::Listing => {
                    &&& answer == Ok::<DiscoveryAction, OutOfTurn>(
                        listing_answer(old(self).target@, listing_of(listing)),
                    )
                    &&& final(self).phase == phase_after(
                        listing_answer(old(self).target@, listing_of(listing)),
                    )
                },
                _ => answer is Err && *final(self) == *old(self),
            },
    {
        match self.phase {
            DiscoveryPhase::Listing => match listing {
                Ok(names) => {
                    if service_listed(&names, self.target.as_str()) {
                        self.phase = DiscoveryPhase::Found;
                        Ok(DiscoveryAction::Proceed)
                    } else {
                        self.phase = DiscoveryPhase::Waiting;
                        Ok(DiscoveryAction::Sleep(DISCOVERY_INTERVAL_SECS))
                    }
                },
                Err(_) => {
                    self.phase = DiscoveryPhase::Failed;
                    Ok(DiscoveryAction::Abort)
                },
            },
            _ => Err(OutOfTurn),
        }
    }
}

} // verus!
