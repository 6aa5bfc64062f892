//! A registry of non-fungible tokens.
//!
//! One [`contract::Contract`] is one collection: it knows which identity
//! owns which token, under which identifier, with which metadata, and it
//! records every change as an event of the standard that the collection was
//! installed for.
//!
//! The state of a collection is described mathematically in [`ledger`] and
//! [`lifecycle`], together with the laws that hold of every state that can
//! be reached. The executable types are in [`registry`] and [`contract`];
//! each of their operations is proved to do what the description says.
//!
//! * [`identity`], [`identifier`]: accounts and token identifiers.
//! * [`notation`], [`reader`], [`rendering`]: the notation of structured
//!   metadata.
//! * [`metadata`], [`validator`]: metadata kinds and their validation.
//! * [`keyed`]: the tables that the registry is made of.
//! * [`ledger`], [`laws`], [`registry`]: the ownership registry.
//! * [`events`]: the event dispatcher and the two event vocabularies.
//! * [`config`], [`lifecycle`], [`contract`]: the configuration and the
//!   entry points.
//! * [`error`]: the conditions of failure and their numbers.
//! * [`text`]: numbers and bytes as text.

pub mod config;
pub mod contract;
pub mod error;
pub mod events;
pub mod identifier;
pub mod identity;
pub mod keyed;
pub mod laws;
pub mod ledger;
pub mod lifecycle;
pub mod metadata;
pub mod notation;
pub mod reader;
pub mod registry;
pub mod rendering;
pub mod text;
pub mod validator;
