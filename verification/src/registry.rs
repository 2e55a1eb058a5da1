//! The registry that routes the daemon's notifications to the handlers of the
//! connection they belong to.
//!
//! A registry maps the identifier of each open connection to the handlers that
//! were registered on it, at most one for each kind of event. The handlers
//! themselves are opaque to the registry: it stores them, replaces them and
//! picks the one that an event is for. Calling it is left to whoever delivers
//! the event.

use std::collections::HashMap;
use vstd::prelude::*;
use crate::event::{Event, UnknownEvent, INDEX_MARK};

verus! {

broadcast use vstd::std_specs::hash::group_hash_axioms;

/// The handlers of one connection: at most one for each kind of event.
///
/// `H` is the type of a handler of an event without payload, `M` that of a
/// handler of index marks, which also receives the mark's name.
pub struct Callbacks<H, M> {
    pub begin: Option<H>,
    pub end: Option<H>,
    pub index_mark: Option<M>,
    pub cancel: Option<H>,
    pub pause: Option<H>,
    pub resume: Option<H>,
}

impl<H, M> Callbacks<H, M> {
    /// The set without any handler.
    pub open spec fn spec_new() -> Self {
        Callbacks {
            begin: None,
            end: None,
            index_mark: None,
            cancel: None,
            pause: None,
            resume: None,
        }
    }

    /// The handler in the slot of `event`.
    pub open spec fn spec_handler(self, event: Event) -> Option<H> {
        match event {
            Event::Begin => self.begin,
            Event::End => self.end,
            Event::Cancel => self.cancel,
            Event::Pause => self.pause,
            Event::Resume => self.resume,
        }
    }

    /// This set with the slot of `event` holding `f` and nothing else.
    pub open spec fn with_handler(self, event: Event, f: Option<H>) -> Self {
        match event {
            Event::Begin => Callbacks { begin: f, ..self },
            Event::End => Callbacks { end: f, ..self },
            Event::Cancel => Callbacks { cancel: f, ..self },
            Event::Pause => Callbacks { pause: f, ..self },
            Event::Resume => Callbacks { resume: f, ..self },
        }
    }

    /// This set with the slot for index marks holding `f` and nothing else.
    pub open spec fn with_index_mark(self, f: Option<M>) -> Self {
        Callbacks { index_mark: f, ..self }
    }

    /// A set without any handler, as a connection has it when it opens.
    pub fn new() -> (callbacks: Self)
        ensures
            callbacks == Self::spec_new(),
    {
        Callbacks {
            begin: None,
            end: None,
            index_mark: None,
            cancel: None,
            pause: None,
            resume: None,
        }
    }

    /// The handler registered for `event`, if there is one.
    pub fn handler(&self, event: Event) -> (found: Option<&H>)
        ensures
            match found {
                Some(h) => self.spec_handler(event) == Some(*h),
                None => self.spec_handler(event) is None,
            },
    {
        match event {
            Event::Begin => self.begin.as_ref(),
            Event::End => self.end.as_ref(),
            Event::Cancel => self.cancel.as_ref(),
            Event::Pause => self.pause.as_ref(),
            Event::Resume => self.resume.as_ref(),
        }
    }

    /// Puts `f` into the slot of `event`. What the slot held before is gone;
    /// `None` leaves the slot empty. The other slots keep what they hold.
    pub fn set_handler(&mut self, event: Event, f: Option<H>)
        ensures
            *final(self) == old(self).with_handler(event, f),
    {
        match event {
            Event::Begin => {
                self.begin = f;
            },
            Event::End => {
                self.end = f;
            },
            Event::Cancel => {
                self.cancel = f;
            },
            Event::Pause => {
                self.pause = f;
            },
            Event::Resume => {
                self.resume = f;
            },
        }
    }

    /// Puts `f` into the slot for index marks, in place of what it held.
    pub fn set_index_mark(&mut self, f: Option<M>)
        ensures
            *final(self) == old(self).with_index_mark(f),
    {
        self.index_mark = f;
    }
}

impl<H, M> Default for Callbacks<H, M> {
    /// The set without any handler.
    fn default() -> (callbacks: Self)
        ensures
            callbacks == Self::spec_new(),
    {
        Callbacks::new()
    }
}

/// One call that is owed to a handler: the handler and its arguments.
pub struct Invocation<'a, H> {
    pub handler: &'a H,
    pub msg_id: u64,
    pub client_id: u64,
}

/// One call that is owed to a handler of index marks.
pub struct MarkInvocation<'a, M> {
    pub handler: &'a M,
    pub msg_id: u64,
    pub client_id: u64,
    pub index_mark: String,
}

/// The handlers of every open connection, by client identifier.
pub struct Registry<H, M> {
    entries: HashMap<u64, Callbacks<H, M>>,
}

impl<H, M> View for Registry<H, M> {
    type V = Map<u64, Callbacks<H, M>>;

    closed spec fn view(&self) -> Map<u64, Callbacks<H, M>> {
        self.entries@
    }
}

/// The entries after a handler for `event` was registered on `client_id`:
/// where the client has an entry, the slot of `event` holds `f`; where it has
/// none, nothing changes.
pub open spec fn registered<H, M>(
    entries: Map<u64, Callbacks<H, M>>,
    client_id: u64,
    event: Event,
    f: Option<H>,
) -> Map<u64, Callbacks<H, M>> {
    if entries.contains_key(client_id) {
        entries.insert(client_id, entries[client_id].with_handler(event, f))
    } else {
        entries
    }
}

/// The entries after a handler for index marks was registered on `client_id`.
pub open spec fn registered_index_mark<H, M>(
    entries: Map<u64, Callbacks<H, M>>,
    client_id: u64,
    f: Option<M>,
) -> Map<u64, Callbacks<H, M>> {
    if entries.contains_key(client_id) {
        entries.insert(client_id, entries[client_id].with_index_mark(f))
    } else {
        entries
    }
}

/// The handler that an event for `client_id` is delivered to: the one in the
/// slot of `event` of the client's entry, and none where the client has no
/// entry or the slot is empty.
pub open spec fn handler_for<H, M>(
    entries: Map<u64, Callbacks<H, M>>,
    client_id: u64,
    event: Event,
) -> Option<H> {
    if entries.contains_key(client_id) {
        entries[client_id].spec_handler(event)
    } else {
        None
    }
}

/// The handler that an index mark for `client_id` is delivered to.
pub open spec fn index_mark_handler_for<H, M>(
    entries: Map<u64, Callbacks<H, M>>,
    client_id: u64,
) -> Option<M> {
    if entries.contains_key(client_id) {
        entries[client_id].index_mark
    } else {
        None
    }
}

/// What becomes of an event reported under the code `state`: an error where
/// the code stands for no event, one call of the handler that
/// [`handler_for`] names where there is one, and nothing otherwise.
pub open spec fn delivery<'a, H, M>(
    entries: Map<u64, Callbacks<H, M>>,
    msg_id: u64,
    client_id: u64,
    state: u32,
) -> Result<Option<Invocation<'a, H>>, UnknownEvent> {
    match Event::spec_from_code(state) {
        Some(event) => match handler_for(entries, client_id, event) {
            Some(h) => Ok(Some(Invocation { handler: &h, msg_id, client_id })),
            None => Ok(None),
        },
        None => Err(UnknownEvent { code: state }),
    }
}

/// What becomes of an index mark reported under the code `state`: an error
/// where the code is not that of an index mark, one call of the handler that
/// [`index_mark_handler_for`] names where there is one, and nothing otherwise.
pub open spec fn mark_delivery<'a, H, M>(
    entries: Map<u64, Callbacks<H, M>>,
    msg_id: u64,
    client_id: u64,
    state: u32,
    index_mark: String,
) -> Result<Option<MarkInvocation<'a, M>>, UnknownEvent> {
    if state != INDEX_MARK {
        Err(UnknownEvent { code: state })
    } else {
        match index_mark_handler_for(entries, client_id) {
            Some(h) => Ok(Some(MarkInvocation { handler: &h, msg_id, client_id, index_mark })),
            None => Ok(None),
        }
    }
}

impl<H, M> Registry<H, M> {
    /// A registry without entries.
    pub fn new() -> (registry: Self)
        ensures
            registry@ == Map::<u64, Callbacks<H, M>>::empty(),
    {
        Registry { entries: HashMap::new() }
    }

    /// Whether `client_id` has an entry.
    pub fn contains(&self, client_id: u64) -> (found: bool)
        ensures
            found == self@.contains_key(client_id),
    {
        self.entries.contains_key(&client_id)
    }

    /// Gives `client_id` an entry without handlers, as is done when its
    /// connection opens. An entry that it had is replaced.
    pub fn register(&mut self, client_id: u64)
        ensures
            final(self)@ == old(self)@.insert(client_id, Callbacks::spec_new()),
    {
        self.entries.insert(client_id, Callbacks::new());
    }

    /// Removes the entry of `client_id`, as is done when its connection
    /// closes. Where it has none, nothing changes.
    pub fn unregister(&mut self, client_id: u64)
        ensures
            final(self)@ == old(self)@.remove(client_id),
    {
        self.entries.remove(&client_id);
    }

    /// Registers `f` for `event` on `client_id`, in place of the handler that
    /// was registered for it before; `None` clears the slot. Without an entry
    /// for `client_id` nothing happens.
    pub fn set_handler(&mut self, client_id: u64, event: Event, f: Option<H>)
        ensures
            final(self)@ == registered(old(self)@, client_id, event, f),
    {
        match self.entries.remove(&client_id) {
            Some(callbacks) => {
                let mut callbacks = callbacks;
                callbacks.set_handler(event, f);
                self.entries.insert(client_id, callbacks);
            },
            None => {},
        }
    }

    /// Registers `f` for index marks on `client_id`, in place of the handler
    /// that was registered before; `None` clears the slot. Without an entry
    /// for `client_id` nothing happens.
    pub fn set_index_mark_handler(&mut self, client_id: u64, f: Option<M>)
        ensures
            final(self)@ == registered_index_mark(old(self)@, client_id, f),
    {
        match self.entries.remove(&client_id) {
            Some(callbacks) => {
                let mut callbacks = callbacks;
                callbacks.set_index_mark(f);
                self.entries.insert(client_id, callbacks);
            },
            None => {},
        }
    }

    /// Decides what becomes of an event that the daemon reports for message
    /// `msg_id` of client `client_id` under the code `state`.
    ///
    /// A code that stands for none of the five events is an error, whatever
    /// the registry holds. Otherwise the event is owed to the handler that is
    /// registered for it on `client_id`, once and with these two identifiers;
    /// it is dropped where the client has no entry or no such handler.
    pub fn notify<'a>(&'a self, msg_id: u64, client_id: u64, state: u32) -> (outcome: Result<
        Option<Invocation<'a, H>>,
        UnknownEvent,
    >)
        ensures
            outcome == delivery(self@, msg_id, client_id, state),
            !self@.contains_key(client_id) && Event::spec_from_code(state) is Some ==> outcome
                == Ok::<Option<Invocation<'a, H>>, UnknownEvent>(None),
    {
        let event = match Event::from_code(state) {
            Some(event) => event,
            None => {
                return Err(UnknownEvent { code: state });
            },
        };
        match self.entries.get(&client_id) {
            Some(callbacks) => match callbacks.handler(event) {
                Some(handler) => Ok(Some(Invocation { handler, msg_id, client_id })),
                None => Ok(None),
            },
            None => Ok(None),
        }
    }

    /// Decides what becomes of an index mark that the daemon reports for
    /// message `msg_id` of client `client_id` under the code `state`, with the
    /// mark's name.
    ///
    /// Any code but that of an index mark is an error, whatever the registry
    /// holds. Otherwise the mark is owed to the handler of index marks on
    /// `client_id`, once, with the two identifiers and the name; it is dropped
    /// where the client has no entry or no such handler.
    pub fn notify_index_mark<'a>(
        &'a self,
        msg_id: u64,
        client_id: u64,
        state: u32,
        index_mark: String,
    ) -> (outcome: Result<Option<MarkInvocation<'a, M>>, UnknownEvent>)
        ensures
            outcome == mark_delivery(self@, msg_id, client_id, state, index_mark),
            !self@.contains_key(client_id) && state == INDEX_MARK ==> outcome == Ok::<
                Option<MarkInvocation<'a, M>>,
                UnknownEvent,
            >(None),
    {
        if state != INDEX_MARK {
            return Err(UnknownEvent { code: state });
        }
        match self.entries.get(&client_id) {
            Some(callbacks) => match callbacks.index_mark.as_ref() {
                Some(handler) => Ok(
                    Some(MarkInvocation { handler, msg_id, client_id, index_mark }),
                ),
                None => Ok(None),
            },
            None => Ok(None),
        }
    }
}

impl<H, M> Default for Registry<H, M> {
    /// A registry without entries.
    fn default() -> (registry: Self)
        ensures
            registry@ == Map::<u64, Callbacks<H, M>>::empty(),
    {
        Registry::new()
    }
}

/// One registration, as [`Registry::set_handler`] and
/// [`Registry::set_index_mark_handler`] make it.
pub enum Registration<H, M> {
    Handler { client_id: u64, event: Event, handler: Option<H> },
    IndexMark { client_id: u64, mark_handler: Option<M> },
}

/// The entries after one registration.
pub open spec fn after<H, M>(
    entries: Map<u64, Callbacks<H, M>>,
    registration: Registration<H, M>,
) -> Map<u64, Callbacks<H, M>> {
    match registration {
        Registration::Handler { client_id, event, handler } => registered(
            entries,
            client_id,
            event,
            handler,
        ),
        Registration::IndexMark { client_id, mark_handler } => registered_index_mark(
            entries,
            client_id,
            mark_handler,
        ),
    }
}

/// The entries after a sequence of registrations, made in their order.
pub open spec fn after_all<H, M>(
    entries: Map<u64, Callbacks<H, M>>,
    registrations: Seq<Registration<H, M>>,
) -> Map<u64, Callbacks<H, M>>
    decreases registrations.len(),
{
    if registrations.len() == 0 {
        entries
    } else {
        after(after_all(entries, registrations.drop_last()), registrations.last())
    }
}

/// Whether a registration is for `event` on `client_id`.
pub open spec fn is_for<H, M>(
    registration: Registration<H, M>,
    client_id: u64,
    event: Event,
) -> bool {
    registration matches Registration::Handler { client_id: c, event: e, .. } && c == client_id && e
        == event
}

/// Whether a registration is for index marks on `client_id`.
pub open spec fn is_for_index_marks<H, M>(
    registration: Registration<H, M>,
    client_id: u64,
) -> bool {
    registration matches Registration::IndexMark { client_id: c, .. } && c == client_id
}

/// A registration changes one slot of one client: the handler that an event
/// goes to is the registered one for the event and the client of the
/// registration, where the client has an entry, and the same as before for
/// every other event and client. The handlers of index marks stay, and no
/// client gains or loses its entry.
pub proof fn lemma_registered<H, M>(
    entries: Map<u64, Callbacks<H, M>>,
    client_id: u64,
    event: Event,
    f: Option<H>,
    other_id: u64,
    other_event: Event,
)
    ensures
        registered(entries, client_id, event, f).contains_key(other_id) == entries.contains_key(
            other_id,
        ),
        handler_for(registered(entries, client_id, event, f), other_id, other_event) == if other_id
            == client_id && other_event == event && entries.contains_key(client_id) {
            f
        } else {
            handler_for(entries, other_id, other_event)
        },
        index_mark_handler_for(registered(entries, client_id, event, f), other_id)
            == index_mark_handler_for(entries, other_id),
{
}

/// A registration for index marks changes the handler of index marks of one
/// client, where the client has an entry, and nothing else.
pub proof fn lemma_registered_index_mark<H, M>(
    entries: Map<u64, Callbacks<H, M>>,
    client_id: u64,
    f: Option<M>,
    other_id: u64,
    other_event: Event,
)
    ensures
        registered_index_mark(entries, client_id, f).contains_key(other_id) == entries.contains_key(
            other_id,
        ),
        index_mark_handler_for(registered_index_mark(entries, client_id, f), other_id)
            == if other_id == client_id && entries.contains_key(client_id) {
            f
        } else {
            index_mark_handler_for(entries, other_id)
        },
        handler_for(registered_index_mark(entries, client_id, f), other_id, other_event)
            == handler_for(entries, other_id, other_event),
{
}

/// A new handler takes the place of the one before it: registering twice for
/// the same event on the same client leaves what registering the second
/// handler alone would leave.
pub proof fn lemma_registering_replaces<H, M>(
    entries: Map<u64, Callbacks<H, M>>,
    client_id: u64,
    event: Event,
    first: Option<H>,
    second: Option<H>,
)
    ensures
        registered(registered(entries, client_id, event, first), client_id, event, second)
            == registered(entries, client_id, event, second),
{
    assert(registered(registered(entries, client_id, event, first), client_id, event, second)
        =~= registered(entries, client_id, event, second));
}

/// The same of the handler of index marks.
pub proof fn lemma_registering_index_mark_replaces<H, M>(
    entries: Map<u64, Callbacks<H, M>>,
    client_id: u64,
    first: Option<M>,
    second: Option<M>,
)
    ensures
        registered_index_mark(registered_index_mark(entries, client_id, first), client_id, second)
            == registered_index_mark(entries, client_id, second),
{
    assert(registered_index_mark(
        registered_index_mark(entries, client_id, first),
        client_id,
        second,
    ) =~= registered_index_mark(entries, client_id, second));
}

/// No sequence of registrations gives a client an entry or takes one away.
pub proof fn lemma_registrations_keep_clients<H, M>(
    entries: Map<u64, Callbacks<H, M>>,
    registrations: Seq<Registration<H, M>>,
    client_id: u64,
)
    ensures
        after_all(entries, registrations).contains_key(client_id) == entries.contains_key(
            client_id,
        ),
    decreases registrations.len(),
{
    if registrations.len() > 0 {
        lemma_registrations_keep_clients(entries, registrations.drop_last(), client_id);
    }
}

/// An event of a client with an entry goes to the handler that was registered
/// last for that event on that client, whatever was registered before it and
/// whatever was registered after it for other events and other clients. It is
/// called once, with the identifiers of the message and of the client. Where
/// the last registration cleared the slot, the event is dropped.
pub proof fn lemma_latest_handler_is_called<'a, H, M>(
    entries: Map<u64, Callbacks<H, M>>,
    registrations: Seq<Registration<H, M>>,
    latest: int,
    client_id: u64,
    event: Event,
    msg_id: u64,
)
    requires
        entries.contains_key(client_id),
        0 <= latest < registrations.len(),
        is_for(registrations[latest], client_id, event),
        forall|j: int| latest < j < registrations.len() ==> !is_for(
            #[trigger] registrations[j],
            client_id,
            event,
        ),
    ensures
        handler_for(after_all(entries, registrations), client_id, event)
            == registrations[latest]->handler,
        delivery::<'a, H, M>(
            after_all(entries, registrations),
            msg_id,
            client_id,
            event.spec_code(),
        ) == match registrations[latest]->handler {
            Some(h) => Ok::<Option<Invocation<'a, H>>, UnknownEvent>(
                Some(Invocation { handler: &h, msg_id, client_id }),
            ),
            None => Ok::<Option<Invocation<'a, H>>, UnknownEvent>(None),
        },
    decreases registrations.len(),
{
    let before = registrations.drop_last();
    lemma_registrations_keep_clients(entries, before, client_id);
    if latest < registrations.len() - 1 {
        lemma_latest_handler_is_called::<H, M>(entries, before, latest, client_id, event, msg_id);
    }
    Event::lemma_code_round_trip(event);
}

/// An index mark of a client with an entry goes to the handler of index marks
/// that was registered last on that client, once, with the identifiers of the
/// message and of the client and with the mark's name.
pub proof fn lemma_latest_index_mark_handler_is_called<'a, H, M>(
    entries: Map<u64, Callbacks<H, M>>,
    registrations: Seq<Registration<H, M>>,
    latest: int,
    client_id: u64,
    msg_id: u64,
    index_mark: String,
)
    requires
        entries.contains_key(client_id),
        0 <= latest < registrations.len(),
        is_for_index_marks(registrations[latest], client_id),
        forall|j: int| latest < j < registrations.len() ==> !is_for_index_marks(
            #[trigger] registrations[j],
            client_id,
        ),
    ensures
        index_mark_handler_for(after_all(entries, registrations), client_id)
            == registrations[latest]->mark_handler,
        mark_delivery::<'a, H, M>(
            after_all(entries, registrations),
            msg_id,
            client_id,
            INDEX_MARK,
            index_mark,
        ) == match registrations[latest]->mark_handler {
            Some(h) => Ok::<Option<MarkInvocation<'a, M>>, UnknownEvent>(
                Some(MarkInvocation { handler: &h, msg_id, client_id, index_mark }),
            ),
            None => Ok::<Option<MarkInvocation<'a, M>>, UnknownEvent>(None),
        },
    decreases registrations.len(),
{
    let before = registrations.drop_last();
    lemma_registrations_keep_clients(entries, before, client_id);
    if latest < registrations.len() - 1 {
        lemma_latest_index_mark_handler_is_called::<H, M>(
            entries,
            before,
            latest,
            client_id,
            msg_id,
            index_mark,
        );
    }
}

/// What is done for one client leaves every other client as it was: giving
/// a client an entry, removing its entry and registering a handler on it
/// change neither whether another client has an entry nor the handlers that
/// the other client's events and index marks go to. So the order in which
/// different connections come to the registry does not matter to any of them.
pub proof fn lemma_other_clients_are_untouched<H, M>(
    entries: Map<u64, Callbacks<H, M>>,
    client_id: u64,
    other_id: u64,
    event: Event,
    f: Option<H>,
    mark_handler: Option<M>,
    other_event: Event,
    other_f: Option<H>,
)
    requires
        other_id != client_id,
    ensures
        ({
            let opened = entries.insert(client_id, Callbacks::spec_new());
            &&& opened.contains_key(other_id) == entries.contains_key(other_id)
            &&& handler_for(opened, other_id, other_event) == handler_for(
                entries,
                other_id,
                other_event,
            )
            &&& index_mark_handler_for(opened, other_id) == index_mark_handler_for(
                entries,
                other_id,
            )
        }),
        ({
            let closed = entries.remove(client_id);
            &&& closed.contains_key(other_id) == entries.contains_key(other_id)
            &&& handler_for(closed, other_id, other_event) == handler_for(
                entries,
                other_id,
                other_event,
            )
            &&& index_mark_handler_for(closed, other_id) == index_mark_handler_for(
                entries,
                other_id,
            )
        }),
        ({
            let changed = registered(entries, client_id, event, f);
            &&& changed.contains_key(other_id) == entries.contains_key(other_id)
            &&& handler_for(changed, other_id, other_event) == handler_for(
                entries,
                other_id,
                other_event,
            )
            &&& index_mark_handler_for(changed, other_id) == index_mark_handler_for(
                entries,
                other_id,
            )
        }),
        ({
            let changed = registered_index_mark(entries, client_id, mark_handler);
            &&& changed.contains_key(other_id) == entries.contains_key(other_id)
            &&& handler_for(changed, other_id, other_event) == handler_for(
                entries,
                other_id,
                other_event,
            )
            &&& index_mark_handler_for(changed, other_id) == index_mark_handler_for(
                entries,
                other_id,
            )
        }),
        registered(registered(entries, client_id, event, f), other_id, other_event, other_f)
            == registered(registered(entries, other_id, other_event, other_f), client_id, event, f),
{
    assert(registered(registered(entries, client_id, event, f), other_id, other_event, other_f)
        =~= registered(
        registered(entries, other_id, other_event, other_f),
        client_id,
        event,
        f,
    ));
}

/// Nothing is delivered for a client without an entry, be it that it never
/// had one or that it was removed; and removing an entry twice leaves what
/// removing it once leaves.
pub proof fn lemma_absent_client_is_dropped<'a, H, M>(
    entries: Map<u64, Callbacks<H, M>>,
    client_id: u64,
    msg_id: u64,
    event: Event,
    index_mark: String,
)
    ensures
        !entries.contains_key(client_id) ==> delivery::<'a, H, M>(
            entries,
            msg_id,
            client_id,
            event.spec_code(),
        ) == Ok::<Option<Invocation<'a, H>>, UnknownEvent>(None),
        !entries.contains_key(client_id) ==> mark_delivery::<'a, H, M>(
            entries,
            msg_id,
            client_id,
            INDEX_MARK,
            index_mark,
        ) == Ok::<Option<MarkInvocation<'a, M>>, UnknownEvent>(None),
        !entries.remove(client_id).contains_key(client_id),
        entries.remove(client_id).remove(client_id) == entries.remove(client_id),
{
    Event::lemma_code_round_trip(event);
}

} // verus!
