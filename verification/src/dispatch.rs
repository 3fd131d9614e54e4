//! The dispatch: a handle to a collector, the messages that go to the
//! collector through it, and the resolution of the default dispatch.

use vstd::prelude::*;
use vstd::string::StringExecFns;
use crate::callsite::{register_dispatch, RegistryMessage};
use crate::collect::{Collect, Interest};
use crate::event::Event;
use crate::level::filter::LevelFilter;
use crate::metadata::Metadata;
use crate::span::{Attributes, Current, Id, Record, DISABLED_SPAN};

verus! {

/// The process in which a collector runs. Two handles that name the same
/// process of the same node are the same collector.
#[derive(Copy, Clone, Debug, PartialEq, Eq, Structural, Hash)]
pub struct DispatchProcess {
    pub node_id: u64,
    pub id: u64,
}

impl DispatchProcess {
    /// The handle of process `id` on node `node_id`.
    pub fn new(node_id: u64, id: u64) -> (r: DispatchProcess)
        ensures
            r == (DispatchProcess { node_id, id }),
    {
        DispatchProcess { node_id, id }
    }

    /// The node that the process runs on.
    pub fn node_id(&self) -> (r: u64)
        ensures
            r == self.node_id,
    {
        self.node_id
    }

    /// The number of the process on its node.
    pub fn id(&self) -> (r: u64)
        ensures
            r == self.id,
    {
        self.id
    }
}

/// What a dispatch tells its collector, or asks of it.
#[derive(Debug)]
pub enum DispatchMessage {
    RegisterCallsite(Metadata),
    OnRegisterDispatch(Dispatch),
    MaxLevelHint,
    NewSpan(Attributes),
    CurrentSpan,
    Enabled(Metadata),
    Event(Event),
    Enter(Id),
    Exit(Id),
    CloneSpan(Id),
    TryClose(Id),
    Record { span: Id, values: Record },
    RecordFollowsFrom { span: Id, follows: Id },
}

impl DispatchMessage {
    /// Whether the sender waits for the collector's reply to this message.
    /// Every other message is enqueued and forgotten.
    pub open spec fn is_request(&self) -> bool {
        match *self {
            DispatchMessage::RegisterCallsite(_) => true,
            DispatchMessage::MaxLevelHint => true,
            DispatchMessage::NewSpan(_) => true,
            DispatchMessage::CurrentSpan => true,
            DispatchMessage::Enabled(_) => true,
            DispatchMessage::TryClose(_) => true,
            _ => false,
        }
    }

    /// Whether the sender has to wait for a reply to this message.
    pub fn expects_reply(&self) -> (r: bool)
        ensures
            r == self.is_request(),
    {
        match self {
            DispatchMessage::RegisterCallsite(_) => true,
            DispatchMessage::MaxLevelHint => true,
            DispatchMessage::NewSpan(_) => true,
            DispatchMessage::CurrentSpan => true,
            DispatchMessage::Enabled(_) => true,
            DispatchMessage::TryClose(_) => true,
            _ => false,
        }
    }
}

/// A collector's reply to a request.
#[derive(Debug)]
pub enum Reply {
    Interest(Interest),
    MaxLevelHint(Option<LevelFilter>),
    SpanId(Id),
    CurrentSpan(Current),
    Enabled(bool),
    Closed(bool),
}

/// A message on its way to a collector.
#[derive(Debug)]
pub struct Outgoing {
    pub to: DispatchProcess,
    pub message: DispatchMessage,
}

/// How a request to a dispatch is settled: at once, where the dispatch has
/// no collector, or by sending the message and waiting for the collector's
/// reply.
#[derive(Debug)]
pub enum Ask<T> {
    /// No collector is asked: this is the answer.
    Answer(T),
    /// The collector has to be asked, and the caller waits for its reply.
    Request(Outgoing),
}

/// A handle to at most one collector. A dispatch without a collector
/// discards what it is told and answers every request by a fixed default.
#[derive(Copy, Clone, Debug, PartialEq, Eq, Structural, Hash)]
pub struct Dispatch {
    pub collector: Option<DispatchProcess>,
}

impl View for Dispatch {
    type V = Option<DispatchProcess>;

    /// The collector that the dispatch refers to, if any.
    open spec fn view(&self) -> Option<DispatchProcess> {
        self.collector
    }
}

/// What a request comes to: the default where there is no collector, and
/// the given message to the collector otherwise.
pub open spec fn asked<T>(dispatch: Dispatch, message: DispatchMessage, default: T) -> Ask<T> {
    match dispatch@ {
        Some(collector) => Ask::Request(Outgoing { to: collector, message }),
        None => Ask::Answer(default),
    }
}

/// Two dispatches are the same where they refer to the same collector, or
/// both to none.
pub proof fn lemma_dispatch_identity(a: Dispatch, b: Dispatch)
    ensures
        a == b <==> a@ == b@,
{
}

/// What a notification comes to: nothing where there is no collector, and
/// the given message to the collector otherwise.
pub open spec fn told(dispatch: Dispatch, message: DispatchMessage) -> Option<Outgoing> {
    match dispatch@ {
        Some(collector) => Some(Outgoing { to: collector, message }),
        None => None,
    }
}

impl Dispatch {
    /// Returns a `Dispatch` that forwards to the given collector.
    pub fn some(collector: DispatchProcess) -> (r: Dispatch)
        ensures
            r@ == Some(collector),
    {
        Dispatch { collector: Some(collector) }
    }

    /// Returns the `Dispatch` that forwards to the collector whose process
    /// was just spawned, and registers it with the registry: the second
    /// result is the message that is to be sent to the registry, if a
    /// registry is in reach.
    pub fn spawn(collector: DispatchProcess, registry_in_reach: bool) -> (r: (
        Dispatch,
        Option<RegistryMessage>,
    ))
        ensures
            r.0@ == Some(collector),
            r.1 == if registry_in_reach {
                Some(RegistryMessage::RegisterDispatch(r.0))
            } else {
                None
            },
    {
        let dispatch: Dispatch = Dispatch::some(collector);
        let message: Option<RegistryMessage> = register_dispatch(registry_in_reach, dispatch);
        (dispatch, message)
    }

    /// Returns a new `Dispatch` that discards events and spans.
    pub fn none() -> (r: Dispatch)
        ensures
            r@ is None,
    {
        Dispatch { collector: None }
    }

    /// Whether the dispatch refers to a collector.
    pub fn is_set(&self) -> (r: bool)
        ensures
            r == (self@ is Some),
    {
        self.collector.is_some()
    }

    /// The collector that the dispatch refers to.
    pub fn collector(&self) -> (r: Option<DispatchProcess>)
        ensures
            r == self@,
    {
        self.collector
    }

    fn ask<T>(&self, message: DispatchMessage, default: T) -> (r: Ask<T>)
        ensures
            r == asked(*self, message, default),
    {
        match self.collector {
            Some(collector) => Ask::Request(Outgoing { to: collector, message }),
            None => Ask::Answer(default),
        }
    }

    fn tell(&self, message: DispatchMessage) -> (r: Option<Outgoing>)
        ensures
            r == told(*self, message),
    {
        match self.collector {
            Some(collector) => Some(Outgoing { to: collector, message }),
            None => None,
        }
    }

    /// Registers a new callsite with the collector, asking whether it is
    /// interested in the callsite. Without a collector nobody is.
    pub fn register_callsite(&self, metadata: Metadata) -> (r: Ask<Interest>)
        ensures
            r == asked(*self, DispatchMessage::RegisterCallsite(metadata), Interest::Never),
    {
        self.ask(DispatchMessage::RegisterCallsite(metadata), Interest::never())
    }

    /// Tells the collector that `collector` was registered as a dispatch.
    pub fn on_register_dispatch(&self, collector: Dispatch) -> (r: Option<Outgoing>)
        ensures
            r == told(*self, DispatchMessage::OnRegisterDispatch(collector)),
    {
        self.tell(DispatchMessage::OnRegisterDispatch(collector))
    }

    /// Asks the collector for the highest verbosity level that it will
    /// enable. Without a collector there is no hint.
    pub fn max_level_hint(&self) -> (r: Ask<Option<LevelFilter>>)
        ensures
            r == asked(*self, DispatchMessage::MaxLevelHint, None::<LevelFilter>),
    {
        self.ask(DispatchMessage::MaxLevelHint, None)
    }

    /// Records the construction of a new span, asking the collector for the
    /// span's identifier. Without a collector every span gets the same fixed
    /// identifier.
    pub fn new_span(&self, span: Attributes) -> (r: Ask<Id>)
        ensures
            r == asked(*self, DispatchMessage::NewSpan(span), Id { value: DISABLED_SPAN }),
    {
        self.ask(DispatchMessage::NewSpan(span), Id::from_u64(DISABLED_SPAN))
    }

    /// Records a set of values on a span.
    pub fn record(&self, span: Id, values: Record) -> (r: Option<Outgoing>)
        ensures
            r == told(*self, DispatchMessage::Record { span, values }),
    {
        self.tell(DispatchMessage::Record { span, values })
    }

    /// Adds an indication that `span` follows from the span `follows`.
    pub fn record_follows_from(&self, span: Id, follows: Id) -> (r: Option<Outgoing>)
        ensures
            r == told(*self, DispatchMessage::RecordFollowsFrom { span, follows }),
    {
        self.tell(DispatchMessage::RecordFollowsFrom { span, follows })
    }

    /// Asks the collector whether a span or event with the given metadata
    /// would be recorded right now. Without a collector it would not.
    pub fn enabled(&self, metadata: Metadata) -> (r: Ask<bool>)
        ensures
            r == asked(*self, DispatchMessage::Enabled(metadata), false),
    {
        self.ask(DispatchMessage::Enabled(metadata), false)
    }

    /// Records that an event has occurred.
    pub fn event(&self, event: Event) -> (r: Option<Outgoing>)
        ensures
            r == told(*self, DispatchMessage::Event(event)),
    {
        self.tell(DispatchMessage::Event(event))
    }

    /// Records that a span has been entered.
    pub fn enter(&self, span: Id) -> (r: Option<Outgoing>)
        ensures
            r == told(*self, DispatchMessage::Enter(span)),
    {
        self.tell(DispatchMessage::Enter(span))
    }

    /// Records that a span has been exited.
    pub fn exit(&self, span: Id) -> (r: Option<Outgoing>)
        ensures
            r == told(*self, DispatchMessage::Exit(span)),
    {
        self.tell(DispatchMessage::Exit(span))
    }

    /// Notifies the collector that a span identifier has been cloned. The
    /// caller does not wait: the clone is the identifier itself.
    pub fn clone_span(&self, id: Id) -> (r: (Id, Option<Outgoing>))
        ensures
            r.0 == id,
            r.1 == told(*self, DispatchMessage::CloneSpan(id)),
    {
        (id, self.tell(DispatchMessage::CloneSpan(id)))
    }

    /// Notifies the collector that a span identifier has been dropped,
    /// asking whether the span is closed now. Without a collector it is
    /// not.
    pub fn try_close(&self, id: Id) -> (r: Ask<bool>)
        ensures
            r == asked(*self, DispatchMessage::TryClose(id), false),
    {
        self.ask(DispatchMessage::TryClose(id), false)
    }

    /// Asks the collector for its view of the current span. Without a
    /// collector the current span is unknown.
    pub fn current_span(&self) -> (r: Ask<Current>)
        ensures
            r == asked(*self, DispatchMessage::CurrentSpan, Current::Unknown),
    {
        self.ask(DispatchMessage::CurrentSpan, Current::unknown())
    }
}

/// What a collector's process does with one message from its mailbox: it
/// calls the collector's method for that kind of message, with what the
/// message holds, and replies with what the method returned where the sender
/// waits for a reply. An event goes to the collector only if the collector
/// says that the event is enabled. Of a notification the contract says that
/// the collector's method has run on what the message holds: whatever the
/// collector promises of that method holds afterwards.
pub fn handle_message<C: Collect>(collector: &C, message: DispatchMessage) -> (r: Option<Reply>)
    ensures
        r is Some <==> message.is_request(),
        match message {
            DispatchMessage::RegisterCallsite(metadata) => r matches Some(Reply::Interest(i))
                && call_ensures(C::register_callsite, (collector, &metadata), i),
            DispatchMessage::MaxLevelHint => r matches Some(Reply::MaxLevelHint(h))
                && call_ensures(C::max_level_hint, (collector,), h),
            DispatchMessage::NewSpan(span) => r matches Some(Reply::SpanId(id)) && call_ensures(
                C::new_span,
                (collector, &span),
                id,
            ),
            DispatchMessage::CurrentSpan => r matches Some(Reply::CurrentSpan(c)) && call_ensures(
                C::current_span,
                (collector,),
                c,
            ),
            DispatchMessage::Enabled(metadata) => r matches Some(Reply::Enabled(b))
                && call_ensures(C::enabled, (collector, &metadata), b),
            DispatchMessage::TryClose(id) => r matches Some(Reply::Closed(b)) && call_ensures(
                C::try_close,
                (collector, id),
                b,
            ),
            DispatchMessage::OnRegisterDispatch(dispatch) => r is None && call_ensures(
                C::on_register_dispatch,
                (collector, &dispatch),
                (),
            ),
            DispatchMessage::Event(event) => r is None && exists|enabled: bool|
                {
                    &&& call_ensures(C::event_enabled, (collector, &event), enabled)
                    &&& enabled ==> call_ensures(C::event, (collector, &event), ())
                },
            DispatchMessage::Enter(id) => r is None && call_ensures(
                C::enter,
                (collector, &id),
                (),
            ),
            DispatchMessage::Exit(id) => r is None && call_ensures(C::exit, (collector, &id), ()),
            DispatchMessage::CloneSpan(id) => r is None && exists|clone: Id|
                call_ensures(C::clone_span, (collector, &id), clone),
            DispatchMessage::Record { span, values } => r is None && call_ensures(
                C::record,
                (collector, &span, &values),
                (),
            ),
            DispatchMessage::RecordFollowsFrom { span, follows } => r is None && call_ensures(
                C::record_follows_from,
                (collector, &span, &follows),
                (),
            ),
        },
{
    match message {
        DispatchMessage::RegisterCallsite(metadata) => {
            let interest: Interest = collector.register_callsite(&metadata);
            Some(Reply::Interest(interest))
        },
        DispatchMessage::OnRegisterDispatch(c) => {
            collector.on_register_dispatch(&c);
            None
        },
        DispatchMessage::MaxLevelHint => Some(Reply::MaxLevelHint(collector.max_level_hint())),
        DispatchMessage::NewSpan(span) => {
            let id: Id = collector.new_span(&span);
            Some(Reply::SpanId(id))
        },
        DispatchMessage::CurrentSpan => {
            let current: Current = collector.current_span();
            Some(Reply::CurrentSpan(current))
        },
        DispatchMessage::Enabled(metadata) => {
            let enabled: bool = collector.enabled(&metadata);
            Some(Reply::Enabled(enabled))
        },
        DispatchMessage::Event(event) => {
            if collector.event_enabled(&event) {
                collector.event(&event);
            }
            None
        },
        DispatchMessage::Enter(id) => {
            collector.enter(&id);
            None
        },
        DispatchMessage::Exit(id) => {
            collector.exit(&id);
            None
        },
        DispatchMessage::TryClose(id) => {
            let closed: bool = collector.try_close(id);
            Some(Reply::Closed(closed))
        },
        DispatchMessage::CloneSpan(id) => {
            let _ = collector.clone_span(&id);
            None
        },
        DispatchMessage::Record { span, values } => {
            collector.record(&span, &values);
            None
        },
        DispatchMessage::RecordFollowsFrom { span, follows } => {
            collector.record_follows_from(&span, &follows);
            None
        },
    }
}

/// The default dispatch of one calling context: a scoped dispatch, which
/// comes and goes with the scopes that set it, and a global one, which is
/// set at most once.
#[derive(Copy, Clone, Debug)]
pub struct GlobalDispatchProcess {
    global: Option<DispatchProcess>,
    scoped: Option<DispatchProcess>,
}

/// What a `GlobalDispatchProcess` holds.
pub struct DefaultSlots {
    pub global: Option<DispatchProcess>,
    pub scoped: Option<DispatchProcess>,
}

impl DefaultSlots {
    /// The collector that is current: the scoped one where there is one,
    /// else the global one, else none.
    pub open spec fn current(self) -> Option<DispatchProcess> {
        match self.scoped {
            Some(process) => Some(process),
            None => self.global,
        }
    }

    /// The slots once `dispatcher` was made the scoped default.
    pub open spec fn with_scoped(self, scoped: Option<DispatchProcess>) -> DefaultSlots {
        DefaultSlots { global: self.global, scoped }
    }

    /// The slots after an attempt to make `dispatcher` the global default:
    /// the first collector stays.
    pub open spec fn with_global(self, dispatcher: Option<DispatchProcess>) -> DefaultSlots {
        match self.global {
            Some(_) => self,
            None => DefaultSlots { global: dispatcher, scoped: self.scoped },
        }
    }
}

impl View for GlobalDispatchProcess {
    type V = DefaultSlots;

    closed spec fn view(&self) -> DefaultSlots {
        DefaultSlots { global: self.global, scoped: self.scoped }
    }
}

impl GlobalDispatchProcess {
    /// A context in which no dispatch was ever set.
    pub fn new() -> (r: GlobalDispatchProcess)
        ensures
            r@.global is None,
            r@.scoped is None,
    {
        GlobalDispatchProcess { global: None, scoped: None }
    }
}

impl Default for GlobalDispatchProcess {
    fn default() -> (r: GlobalDispatchProcess)
        ensures
            r@.global is None,
            r@.scoped is None,
    {
        GlobalDispatchProcess::new()
    }
}

/// A guard that resets the scoped default dispatch to the prior one when it
/// is released.
#[derive(Debug)]
pub struct DefaultGuard(Option<DispatchProcess>);

impl DefaultGuard {
    /// The scoped collector that the guard will put back.
    pub closed spec fn prior(&self) -> Option<DispatchProcess> {
        self.0
    }

    /// Ends the scope: the collector that was the scoped default when the
    /// guard was made is the scoped default again. Guards are to be released
    /// in the reverse order of their making.
    pub fn release(self, state: &mut GlobalDispatchProcess)
        ensures
            final(state)@ == old(state)@.with_scoped(self.prior()),
    {
        state.scoped = self.0;
    }
}

/// Returned if setting the global dispatcher fails.
#[derive(Debug)]
pub struct SetGlobalDefaultError {
    _no_construct: (),
}

impl SetGlobalDefaultError {
    /// Says that a global default was set before.
    pub fn to_string(&self) -> (r: String)
        ensures
            r@ == "a global default trace dispatcher has already been set"@,
    {
        String::from_str("a global default trace dispatcher has already been set")
    }
}

/// Sets this dispatch as the default for the duration of a closure, which is
/// given the state to work on and hands it back with its result. Whatever
/// the closure did to the scoped default, the scoped default of before the
/// call is in place again afterwards.
pub fn with_default<T, F: FnOnce(GlobalDispatchProcess) -> (GlobalDispatchProcess, T)>(
    state: &mut GlobalDispatchProcess,
    dispatcher: &Dispatch,
    f: F,
) -> (r: T)
    requires
        forall|inside: GlobalDispatchProcess|
            inside@ == old(state)@.with_scoped(dispatcher@) ==> call_requires(f, (inside,)),
    ensures
        final(state)@.scoped == old(state)@.scoped,
        exists|inside: GlobalDispatchProcess, after: GlobalDispatchProcess|
            {
                &&& inside@ == old(state)@.with_scoped(dispatcher@)
                &&& call_ensures(f, (inside,), (after, r))
                &&& final(state)@ == after@.with_scoped(old(state)@.scoped)
            },
{
    let guard: DefaultGuard = set_default(state, dispatcher);
    let inside: GlobalDispatchProcess = *state;
    let (after, r) = f(inside);
    *state = after;
    guard.release(state);
    r
}

/// Sets the dispatch as the scoped default until the returned guard is
/// released.
#[must_use]
pub fn set_default(state: &mut GlobalDispatchProcess, dispatcher: &Dispatch) -> (r: DefaultGuard)
    ensures
        final(state)@ == old(state)@.with_scoped(dispatcher@),
        r.prior() == old(state)@.scoped,
{
    let old_process: Option<DispatchProcess> = state.scoped;
    state.scoped = dispatcher.collector;
    DefaultGuard(old_process)
}

/// Sets this dispatch as the global default, which is used wherever no
/// scoped default is set. This succeeds once: where a global default is set
/// already, nothing changes and the call fails. A dispatch without a
/// collector sets nothing, and is no failure.
pub fn set_global_default(state: &mut GlobalDispatchProcess, dispatcher: &Dispatch) -> (r: Result<
    (),
    SetGlobalDefaultError,
>)
    ensures
        r is Err <==> old(state)@.global is Some,
        final(state)@ == old(state)@.with_global(dispatcher@),
{
    match state.global {
        Some(_) => Err(SetGlobalDefaultError { _no_construct: () }),
        None => {
            state.global = dispatcher.collector;
            Ok(())
        },
    }
}

/// Returns true if a global default dispatch has ever been set.
pub fn has_been_set(state: &GlobalDispatchProcess) -> (r: bool)
    ensures
        r == (state@.global is Some),
{
    state.global.is_some()
}

/// Executes a closure with the current dispatch: the scoped default where
/// one is set, else the global default, else the dispatch without a
/// collector. A call from inside the closure resolves in the same way: no
/// guard keeps a collector's own instrumentation from being dispatched.
pub fn get_default<T, F: FnOnce(Dispatch) -> T>(state: &GlobalDispatchProcess, f: F) -> (r: T)
    requires
        forall|current: Dispatch| current@ == state@.current() ==> call_requires(f, (current,)),
    ensures
        exists|current: Dispatch| current@ == state@.current() && call_ensures(f, (current,), r),
{
    let current: Dispatch = match state.scoped {
        Some(process) => Dispatch::some(process),
        None => match state.global {
            Some(process) => Dispatch::some(process),
            None => Dispatch::none(),
        },
    };
    f(current)
}

/// Executes a closure with the scoped default dispatch, if one is set.
pub fn get_current<T, F: FnOnce(Dispatch) -> T>(state: &GlobalDispatchProcess, f: F) -> (r: Option<
    T,
>)
    requires
        forall|current: Dispatch|
            state@.scoped is Some && current@ == state@.scoped ==> call_requires(f, (current,)),
    ensures
        r is Some <==> state@.scoped is Some,
        r matches Some(value) ==> exists|current: Dispatch|
            current@ == state@.scoped && call_ensures(f, (current,), value),
{
    match state.scoped {
        Some(process) => Some(f(Dispatch::some(process))),
        None => None,
    }
}

/// The global default dispatch, or the dispatch without a collector where
/// none was set.
pub fn get_global(state: &GlobalDispatchProcess) -> (r: Dispatch)
    ensures
        r@ == state@.global,
{
    match state.global {
        Some(process) => Dispatch::some(process),
        None => Dispatch::none(),
    }
}

/// The current dispatch: the scoped default where one is set, else the
/// global default, else the dispatch without a collector.
pub fn current_dispatch(state: &GlobalDispatchProcess) -> (r: Dispatch)
    ensures
        r@ == state@.current(),
{
    match state.scoped {
        Some(process) => Dispatch::some(process),
        None => get_global(state),
    }
}

/// Of two attempts to set the global default to a collector, the first
/// succeeds and the second fails, and from the first on a global default has
/// been set, which is the first collector.
pub proof fn lemma_global_default_set_once(
    slots: DefaultSlots,
    first: DispatchProcess,
    second: Option<DispatchProcess>,
)
    requires
        slots.global is None,
    ensures
        slots.with_global(Some(first)).global == Some(first),
        slots.with_global(Some(first)).with_global(second) == slots.with_global(Some(first)),
{
}

/// Inside a scope the scope's collector is current, or the global default
/// where the scope's dispatch has no collector; after the scope the slots
/// are what they were. Scopes nest: inside the inner one its collector is
/// current, and after it the outer one's is current again.
pub proof fn lemma_scopes_nest(
    slots: DefaultSlots,
    outer: Option<DispatchProcess>,
    inner: Option<DispatchProcess>,
)
    ensures
        outer is Some ==> slots.with_scoped(outer).current() == outer,
        outer is None ==> slots.with_scoped(outer).current() == slots.global,
        slots.with_scoped(outer).with_scoped(slots.scoped) == slots,
        inner is Some ==> slots.with_scoped(outer).with_scoped(inner).current() == inner,
        slots.with_scoped(outer).with_scoped(inner).with_scoped(outer) == slots.with_scoped(
            outer,
        ),
        slots.with_scoped(outer).with_scoped(inner).with_scoped(outer).with_scoped(slots.scoped)
            == slots,
{
}

} // verus!
