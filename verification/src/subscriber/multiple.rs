//! Combine multiple subscribers.

use vstd::prelude::*;
use crate::metadata::Metadata;
use crate::subscriber::{
    init_subscriber, GlobalSubscriber, SubscriberAlreadyExistsError, SubscriberProcess,
};

verus! {

/// Combines multiple subscribers into a single subscriber. Each child
/// subscriber runs in a process of its own, and each one is notified of
/// incoming events.
#[derive(Debug)]
pub struct MultipleSubscribers {
    subscribers: Vec<SubscriberProcess>,
}

impl View for MultipleSubscribers {
    type V = Seq<SubscriberProcess>;

    closed spec fn view(&self) -> Seq<SubscriberProcess> {
        self.subscribers@
    }
}

impl MultipleSubscribers {
    /// Creates an instance without children.
    pub fn new() -> (r: MultipleSubscribers)
        ensures
            r@.len() == 0,
    {
        MultipleSubscribers { subscribers: Vec::new() }
    }

    /// Adds a child subscriber, which runs in the given process.
    pub fn add_subscriber(self, process: SubscriberProcess) -> (r: MultipleSubscribers)
        ensures
            r@ == self@.push(process),
    {
        let mut this = self;
        this.subscribers.push(process);
        this
    }

    /// Initializes as the global subscriber, which runs in `process`. There
    /// must be no global subscriber yet: use `try_init` where there may be
    /// one.
    pub fn init(self, global: &mut GlobalSubscriber, process: SubscriberProcess)
        requires
            old(global)@ is None,
        ensures
            final(global)@ == Some(process),
    {
        let _ = self.try_init(global, process);
    }

    /// Initializes as the global subscriber, which runs in `process`,
    /// returning an error if a global subscriber has already been
    /// initialized.
    pub fn try_init(self, global: &mut GlobalSubscriber, process: SubscriberProcess) -> (r: Result<
        SubscriberProcess,
        SubscriberAlreadyExistsError,
    >)
        ensures
            match old(global)@ {
                Some(_) => r is Err && final(global)@ == old(global)@,
                None => {
                    &&& r == Ok::<SubscriberProcess, SubscriberAlreadyExistsError>(process)
                    &&& final(global)@ == Some(process)
                },
            },
    {
        init_subscriber(global, process)
    }

    /// Whether an event would reach anybody: there is at least one child.
    pub fn enabled(&self, _metadata: &Metadata) -> (r: bool)
        ensures
            r == (self@.len() > 0),
    {
        self.subscribers.len() > 0
    }

    /// The children that each get a copy of every event, in the order in
    /// which they were added.
    pub fn recipients(&self) -> (r: &Vec<SubscriberProcess>)
        ensures
            r@ == self@,
    {
        &self.subscribers
    }
}

} // verus!
