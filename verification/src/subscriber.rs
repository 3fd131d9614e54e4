//! Subscribers: what handles log events, the messages that reach a
//! subscriber's process, and the one global subscriber.

pub mod data;
pub mod fmt;
pub mod multiple;

use vstd::prelude::*;
use vstd::string::StringExecFns;
use crate::level::filter::LevelFilter;
use crate::metadata::Metadata;
use crate::subscriber::data::Value;

verus! {

/// The process in which a subscriber runs.
#[derive(Copy, Clone, Debug, PartialEq, Eq, Structural, Hash)]
pub struct SubscriberProcess {
    pub node_id: u64,
    pub id: u64,
}

impl SubscriberProcess {
    /// The handle of process `id` on node `node_id`.
    pub fn new(node_id: u64, id: u64) -> (r: SubscriberProcess)
        ensures
            r == (SubscriberProcess { node_id, id }),
    {
        SubscriberProcess { node_id, id }
    }
}

/// An event containing a message, data, and metadata. The data is a list of
/// named values, in the order in which they are shown.
#[derive(Debug)]
pub struct Event {
    message: String,
    data: Vec<(String, Value)>,
    metadata: Metadata,
}

impl Event {
    /// The event's message, as a specification.
    pub closed spec fn spec_message(&self) -> Seq<char> {
        self.message@
    }

    /// The event's data, as a specification.
    pub closed spec fn spec_data(&self) -> Seq<(String, Value)> {
        self.data@
    }

    /// The event's metadata, as a specification.
    pub closed spec fn spec_metadata(&self) -> Metadata {
        self.metadata
    }

    /// Creates a new event given a message, data and metadata.
    pub fn new(
        message: String,
        data: Vec<(String, Value)>,
        metadata: Metadata,
    ) -> (r: Event)
        ensures
            r.spec_message() == message@,
            r.spec_data() == data@,
            r.spec_metadata() == metadata,
    {
        Event { message, data, metadata }
    }

    /// Returns the message string to be logged.
    pub fn message(&self) -> (r: &str)
        ensures
            r@ == self.spec_message(),
    {
        self.message.as_str()
    }

    /// Returns the data.
    pub fn data(&self) -> (r: &Vec<(String, Value)>)
        ensures
            r@ == self.spec_data(),
    {
        &self.data
    }

    /// Returns the metadata describing this event.
    pub fn metadata(&self) -> (r: &Metadata)
        ensures
            *r == self.spec_metadata(),
    {
        &self.metadata
    }

    /// Whether the event carries data.
    pub fn has_data(&self) -> (r: bool)
        ensures
            r == (self.spec_data().len() != 0),
    {
        self.data.len() != 0
    }
}

/// The message type for subscriber processes.
#[derive(Debug)]
pub enum SubscriberMessage {
    /// An event dispatched.
    Event(Event),
    /// A request for the current max level hint.
    MaxLevelHint,
}

/// A subscriber which handles incoming log events.
pub trait Subscriber {
    /// Indicate whether subscriber is enabled given some metadata.
    fn enabled(&self, metadata: &Metadata) -> bool;

    /// Handle a log event.
    fn event(&self, event: &Event);

    /// Returns the highest verbosity level that this subscriber will enable,
    /// or `None`, if the subscriber does not filter by level.
    fn max_level_hint(&self) -> (r: Option<LevelFilter>)
        default_ensures
            r is None,
    {
        None
    }
}

/// An error indicating a global subscriber has already been spawned.
#[derive(Debug)]
pub struct SubscriberAlreadyExistsError;

impl SubscriberAlreadyExistsError {
    /// Says that a subscriber exists already.
    pub fn to_string(&self) -> (r: String)
        ensures
            r@ == "subscriber already exists"@,
    {
        String::from_str("subscriber already exists")
    }
}

/// The one global subscriber, if it was initialized.
#[derive(Copy, Clone, Debug)]
pub struct GlobalSubscriber {
    process: Option<SubscriberProcess>,
}

impl View for GlobalSubscriber {
    type V = Option<SubscriberProcess>;

    closed spec fn view(&self) -> Option<SubscriberProcess> {
        self.process
    }
}

impl GlobalSubscriber {
    /// No global subscriber yet.
    pub fn new() -> (r: GlobalSubscriber)
        ensures
            r@ is None,
    {
        GlobalSubscriber { process: None }
    }

    /// The global subscriber's process, if there is one.
    pub fn get(&self) -> (r: Option<SubscriberProcess>)
        ensures
            r == self@,
    {
        self.process
    }
}

/// Makes `process` the global subscriber. Only one global subscriber may
/// exist: where there is one already it stays, and the call fails.
pub fn init_subscriber(global: &mut GlobalSubscriber, process: SubscriberProcess) -> (r: Result<
    SubscriberProcess,
    SubscriberAlreadyExistsError,
>)
    ensures
        match old(global)@ {
            Some(_) => r is Err && final(global)@ == old(global)@,
            None => {
                &&& r == Ok::<SubscriberProcess, SubscriberAlreadyExistsError>(process)
                &&& final(global)@ == Some(process)
            },
        },
{
    if global.process.is_some() {
        return Err(SubscriberAlreadyExistsError);
    }
    global.process = Some(process);
    Ok(process)
}

/// Dispatches an event to the global subscriber, if present: the result is
/// the message to send and the process to send it to.
pub fn dispatch(global: &GlobalSubscriber, event: Event) -> (r: Option<
    (SubscriberProcess, SubscriberMessage),
>)
    ensures
        r == match global@ {
            Some(process) => Some((process, SubscriberMessage::Event(event))),
            None => None,
        },
{
    match global.process {
        Some(process) => Some((process, SubscriberMessage::Event(event))),
        None => None,
    }
}

/// What a subscriber's process does with one message: an event goes to the
/// subscriber if the subscriber is enabled for the event's metadata, and a
/// request for the maximum level is answered with the subscriber's hint.
/// The result is the reply, if the message asks for one.
pub fn handle_message<S: Subscriber>(subscriber: &S, message: SubscriberMessage) -> (r: Option<
    Option<LevelFilter>,
>)
    ensures
        match message {
            SubscriberMessage::Event(event) => r is None && exists|enabled: bool|
                {
                    &&& call_ensures(S::enabled, (subscriber, &event.spec_metadata()), enabled)
                    &&& enabled ==> call_ensures(S::event, (subscriber, &event), ())
                },
            SubscriberMessage::MaxLevelHint => r matches Some(hint) && call_ensures(
                S::max_level_hint,
                (subscriber,),
                hint,
            ),
        },
{
    match message {
        SubscriberMessage::Event(event) => {
            if subscriber.enabled(event.metadata()) {
                subscriber.event(&event);
            }
            None
        },
        SubscriberMessage::MaxLevelHint => Some(subscriber.max_level_hint()),
    }
}

/// What one calling context knows of the process that takes its log events.
#[derive(Copy, Clone, Debug, PartialEq, Eq, Structural)]
pub enum LoggingProcess {
    /// Nobody looked for the process yet.
    NotLookedUp,
    /// The process was looked for and not found.
    NotPresent,
    /// The process.
    Present(SubscriberProcess),
}

impl LoggingProcess {
    /// Whether the process has to be looked up before `lookup` is called.
    pub fn needs_lookup(&self) -> (r: bool)
        ensures
            r == (*self is NotLookedUp),
    {
        matches!(self, LoggingProcess::NotLookedUp)
    }

    /// The logging process, looked up at most once: where nobody looked
    /// yet, `found` is what the lookup by name gave, and it is remembered,
    /// be it a process or none. From then on the remembered answer is
    /// returned and `found` is not looked at.
    pub fn lookup(&mut self, found: Option<SubscriberProcess>) -> (r: Option<SubscriberProcess>)
        ensures
            match *old(self) {
                LoggingProcess::NotLookedUp => r == found && *final(self) == match found {
                    Some(process) => LoggingProcess::Present(process),
                    None => LoggingProcess::NotPresent,
                },
                LoggingProcess::NotPresent => r is None && *final(self) == *old(self),
                LoggingProcess::Present(process) => {
                    &&& r == Some(process)
                    &&& *final(self) == *old(self)
                },
            },
    {
        match *self {
            LoggingProcess::NotLookedUp => {
                match found {
                    Some(process) => {
                        *self = LoggingProcess::Present(process);
                        Some(process)
                    },
                    None => {
                        *self = LoggingProcess::NotPresent;
                        None
                    },
                }
            },
            LoggingProcess::NotPresent => None,
            LoggingProcess::Present(process) => Some(process),
        }
    }

    /// Remembers the process that was just spawned and registered as the
    /// logging process.
    pub fn init(&mut self, process: SubscriberProcess) -> (r: SubscriberProcess)
        ensures
            r == process,
            *final(self) == LoggingProcess::Present(process),
    {
        *self = LoggingProcess::Present(process);
        process
    }
}

} // verus!
