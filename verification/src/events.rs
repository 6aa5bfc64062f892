//! The event dispatcher.
//!
//! A collection commits to one event standard when it is installed, and
//! records every change in the vocabulary of that standard and in no other:
//! as a flat record of the legacy standard, appended to a log or put into a
//! dictionary, or as a structured event tagged with its token.

pub mod events_cep47;
pub mod events_cep78;

use vstd::prelude::*;

use crate::events::events_cep47::{records_view, slots_view, CEP47Event, CEP47EventView, FlatRecord, Slot};
use crate::events::events_cep78::{tagged_view, CEP78Event, TaggedEvent};
use crate::identifier::{TokenId, TokenIdentifier};
use crate::identity::Identity;
use crate::text::decimal;

verus! {

/// An event, in the vocabulary and for the log that it goes to.
#[derive(Clone, Debug, PartialEq, Eq)]
pub enum Event {
    /// A legacy event for the append-only log.
    Cep47(CEP47Event),
    /// A legacy event for the event dictionary.
    Cep47Dict(CEP47Event),
    /// A structured event, with the token that it is about.
    Cep78(TokenIdentifier, CEP78Event),
}

/// What an event stands for.
pub enum EventView {
    /// A legacy event for the append-only log.
    Cep47(CEP47EventView),
    /// A legacy event for the event dictionary.
    Cep47Dict(CEP47EventView),
    /// A structured event, with the token that it is about.
    Cep78(TokenId, CEP78Event),
}

impl View for Event {
    type V = EventView;

    open spec fn view(&self) -> EventView {
        match self {
            Event::Cep47(e) => EventView::Cep47(e@),
            Event::Cep47Dict(e) => EventView::Cep47Dict(e@),
            Event::Cep78(id, e) => EventView::Cep78(id@, *e),
        }
    }
}

/// The event standard of a collection.
#[derive(Clone, Copy, Debug, PartialEq, Eq, Structural)]
pub enum EventsMode {
    /// The legacy standard, with an append-only log.
    Cep47,
    /// The legacy standard, with an event dictionary.
    Cep47Dict,
    /// The structured standard.
    Cep78,
}

/// A change of a token, before it is put into the words of a standard.
#[derive(Clone, Debug, PartialEq, Eq)]
pub enum TokenEvent {
    /// The token was minted for `recipient`.
    Mint { token_id: TokenIdentifier, recipient: Identity },
    /// `owner` burnt the token.
    Burn { token_id: TokenIdentifier, owner: Identity },
    /// The token passed from `sender` to `recipient`.
    Transfer { token_id: TokenIdentifier, sender: Identity, recipient: Identity },
    /// The token got other metadata.
    MetadataUpdate { token_id: TokenIdentifier },
    /// `owner` allowed `spender` to transfer the token.
    ApprovalGranted { token_id: TokenIdentifier, owner: Identity, spender: Identity },
}

/// What a change of a token stands for.
pub enum TokenEventView {
    /// The token was minted for `recipient`.
    Mint { token_id: TokenId, recipient: Identity },
    /// `owner` burnt the token.
    Burn { token_id: TokenId, owner: Identity },
    /// The token passed from `sender` to `recipient`.
    Transfer { token_id: TokenId, sender: Identity, recipient: Identity },
    /// The token got other metadata.
    MetadataUpdate { token_id: TokenId },
    /// `owner` allowed `spender` to transfer the token.
    ApprovalGranted { token_id: TokenId, owner: Identity, spender: Identity },
}

impl View for TokenEvent {
    type V = TokenEventView;

    open spec fn view(&self) -> TokenEventView {
        match self {
            TokenEvent::Mint { token_id, recipient } => TokenEventView::Mint {
                token_id: token_id@,
                recipient: *recipient,
            },
            TokenEvent::Burn { token_id, owner } => TokenEventView::Burn {
                token_id: token_id@,
                owner: *owner,
            },
            TokenEvent::Transfer { token_id, sender, recipient } => TokenEventView::Transfer {
                token_id: token_id@,
                sender: *sender,
                recipient: *recipient,
            },
            TokenEvent::MetadataUpdate { token_id } => TokenEventView::MetadataUpdate {
                token_id: token_id@,
            },
            TokenEvent::ApprovalGranted { token_id, owner, spender } => {
                TokenEventView::ApprovalGranted {
                    token_id: token_id@,
                    owner: *owner,
                    spender: *spender,
                }
            },
        }
    }
}

impl TokenEventView {
    /// This change in the words of the legacy standard.
    pub open spec fn legacy(self) -> CEP47EventView {
        match self {
            TokenEventView::Mint { token_id, recipient } => CEP47EventView::Mint {
                recipient,
                token_id,
            },
            TokenEventView::Burn { token_id, owner } => CEP47EventView::Burn { owner, token_id },
            TokenEventView::Transfer { token_id, sender, recipient } => CEP47EventView::Transfer {
                sender,
                recipient,
                token_id,
            },
            TokenEventView::MetadataUpdate { token_id } => CEP47EventView::MetadataUpdate {
                token_id,
            },
            TokenEventView::ApprovalGranted { token_id, owner, spender } => {
                CEP47EventView::ApprovalGranted { owner, spender, token_id }
            },
        }
    }

    /// The token that this change is about.
    pub open spec fn token(self) -> TokenId {
        match self {
            TokenEventView::Mint { token_id, recipient } => token_id,
            TokenEventView::Burn { token_id, owner } => token_id,
            TokenEventView::Transfer { token_id, sender, recipient } => token_id,
            TokenEventView::MetadataUpdate { token_id } => token_id,
            TokenEventView::ApprovalGranted { token_id, owner, spender } => token_id,
        }
    }

    /// This change in the words of the structured standard.
    pub open spec fn structured(self) -> CEP78Event {
        match self {
            TokenEventView::Mint { token_id, recipient } => CEP78Event::Mint { recipient },
            TokenEventView::Burn { token_id, owner } => CEP78Event::Burn { owner },
            TokenEventView::Transfer { token_id, sender, recipient } => CEP78Event::Transfer {
                owner: sender,
                recipient,
            },
            TokenEventView::MetadataUpdate { token_id } => CEP78Event::MetadataUpdate,
            TokenEventView::ApprovalGranted { token_id, owner, spender } => {
                CEP78Event::ApprovalGranted { owner, spender }
            },
        }
    }

    /// This change as the event that a collection of standard `standard`
    /// records.
    pub open spec fn dispatched(self, standard: EventsMode) -> EventView {
        match standard {
            EventsMode::Cep47 => EventView::Cep47(self.legacy()),
            EventsMode::Cep47Dict => EventView::Cep47Dict(self.legacy()),
            EventsMode::Cep78 => EventView::Cep78(self.token(), self.structured()),
        }
    }
}

/// What the event logs of a collection hold.
pub struct EventLogView {
    /// The records of the append-only log of the legacy standard.
    pub cep47: Seq<Seq<(Seq<char>, Seq<char>)>>,
    /// The slots of the event dictionary of the legacy standard, each with
    /// its key.
    pub cep47_dictionary: Seq<(Seq<char>, Seq<(Seq<char>, Seq<char>)>)>,
    /// The events of the structured standard, each with its token.
    pub cep78: Seq<(TokenId, CEP78Event)>,
}

impl EventLogView {
    /// The logs with nothing in them.
    pub open spec fn empty() -> EventLogView {
        EventLogView { cep47: Seq::empty(), cep47_dictionary: Seq::empty(), cep78: Seq::empty() }
    }

    /// The number of events that were recorded.
    pub open spec fn count(self) -> nat {
        self.cep47.len() + self.cep47_dictionary.len() + self.cep78.len()
    }

    /// The logs after `event` was recorded: a legacy event as a flat record
    /// at the end of its log or in the next slot of the dictionary, a
    /// structured event with its token at the end of its log.
    pub open spec fn recorded(self, event: EventView) -> EventLogView {
        match event {
            EventView::Cep47(e) => EventLogView { cep47: self.cep47.push(e.flat()), ..self },
            EventView::Cep47Dict(e) => EventLogView {
                cep47_dictionary: self.cep47_dictionary.push(
                    (decimal(self.cep47_dictionary.len()), e.flat()),
                ),
                ..self
            },
            EventView::Cep78(id, e) => EventLogView { cep78: self.cep78.push((id, e)), ..self },
        }
    }

    /// Whether the logs hold events of the standard `standard` only.
    pub open spec fn speaks_only(self, standard: EventsMode) -> bool {
        match standard {
            EventsMode::Cep47 => self.cep47_dictionary.len() == 0 && self.cep78.len() == 0,
            EventsMode::Cep47Dict => self.cep47.len() == 0 && self.cep78.len() == 0,
            EventsMode::Cep78 => self.cep47.len() == 0 && self.cep47_dictionary.len() == 0,
        }
    }

    /// Recording a change in the words of a standard adds one event, and
    /// leaves logs that held that standard only holding that standard
    /// only.
    pub proof fn lemma_one_vocabulary(self, standard: EventsMode, change: TokenEventView)
        requires
            self.speaks_only(standard),
        ensures
            self.recorded(change.dispatched(standard)).speaks_only(standard),
            self.recorded(change.dispatched(standard)).count() == self.count() + 1,
    {
    }
}

/// The event logs of a collection.
pub struct EventLog {
    cep47: Vec<FlatRecord>,
    cep47_dictionary: Vec<Slot>,
    cep78: Vec<TaggedEvent>,
}

impl View for EventLog {
    type V = EventLogView;

    closed spec fn view(&self) -> EventLogView {
        EventLogView {
            cep47: records_view(self.cep47@),
            cep47_dictionary: slots_view(self.cep47_dictionary@),
            cep78: tagged_view(self.cep78@),
        }
    }
}

impl EventLog {
    /// Logs with nothing in them.
    pub fn new() -> (log: EventLog)
        ensures
            log@ == EventLogView::empty(),
    {
        let log = EventLog { cep47: Vec::new(), cep47_dictionary: Vec::new(), cep78: Vec::new() };
        proof {
            assert(log@.cep47 =~= Seq::empty());
            assert(log@.cep47_dictionary =~= Seq::empty());
            assert(log@.cep78 =~= Seq::empty());
        }
        log
    }

    /// The records of the append-only log of the legacy standard.
    pub fn cep47(&self) -> (records: &Vec<FlatRecord>)
        ensures
            records_view(records@) == self@.cep47,
    {
        &self.cep47
    }

    /// The slots of the event dictionary of the legacy standard.
    pub fn cep47_dictionary(&self) -> (slots: &Vec<Slot>)
        ensures
            slots_view(slots@) == self@.cep47_dictionary,
    {
        &self.cep47_dictionary
    }

    /// The events of the structured standard.
    pub fn cep78(&self) -> (events: &Vec<TaggedEvent>)
        ensures
            tagged_view(events@) == self@.cep78,
    {
        &self.cep78
    }
}

/// Puts a change of a token into the words of the standard `standard`.
pub fn dispatch(standard: EventsMode, change: TokenEvent) -> (event: Event)
    ensures
        event@ == change@.dispatched(standard),
{
    match standard {
        EventsMode::Cep78 => match change {
            TokenEvent::Mint { token_id, recipient } => Event::Cep78(
                token_id,
                CEP78Event::Mint { recipient },
            ),
            TokenEvent::Burn { token_id, owner } => Event::Cep78(token_id, CEP78Event::Burn { owner }),
            TokenEvent::Transfer { token_id, sender, recipient } => Event::Cep78(
                token_id,
                CEP78Event::Transfer { owner: sender, recipient },
            ),
            TokenEvent::MetadataUpdate { token_id } => Event::Cep78(
                token_id,
                CEP78Event::MetadataUpdate,
            ),
            TokenEvent::ApprovalGranted { token_id, owner, spender } => Event::Cep78(
                token_id,
                CEP78Event::ApprovalGranted { owner, spender },
            ),
        },
        _ => {
            let legacy = match change {
                TokenEvent::Mint { token_id, recipient } => CEP47Event::Mint { recipient, token_id },
                TokenEvent::Burn { token_id, owner } => CEP47Event::Burn { owner, token_id },
                TokenEvent::Transfer { token_id, sender, recipient } => CEP47Event::Transfer {
                    sender,
                    recipient,
                    token_id,
                },
                TokenEvent::MetadataUpdate { token_id } => CEP47Event::MetadataUpdate { token_id },
                TokenEvent::ApprovalGranted { token_id, owner, spender } => {
                    CEP47Event::ApprovalGranted { owner, spender, token_id }
                },
            };
            match standard {
                EventsMode::Cep47 => Event::Cep47(legacy),
                _ => Event::Cep47Dict(legacy),
            }
        },
    }
}

/// Records `event_enum` in the log that it is for.
pub fn record_event(log: &mut EventLog, event_enum: Event)
    ensures
        final(log)@ == old(log)@.recorded(event_enum@),
{
    match event_enum {
        Event::Cep47(event) => events_cep47::record_event(&mut log.cep47, &event),
        Event::Cep47Dict(event) => events_cep47::record_event_dictionary(
            &mut log.cep47_dictionary,
            &event,
        ),
        Event::Cep78(token_identifier, event) => {
            events_cep78::record_event(&mut log.cep78, token_identifier, event)
        },
    }
}

/// Records a change of a token in the words of the standard `standard`:
/// exactly one event, in the log of that standard.
pub fn record(log: &mut EventLog, standard: EventsMode, change: TokenEvent)
    ensures
        final(log)@ == old(log)@.recorded(change@.dispatched(standard)),
{
    record_event(log, dispatch(standard, change));
}

} // verus!
