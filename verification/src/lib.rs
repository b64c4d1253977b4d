//! Request construction and tolerant response decoding for a service that
//! reports the moon's phases and the day's rise, set and twilight events.
//!
//! Requests are made from plain numbers and checked before anything is
//! sent. Responses are decoded from a tree of received values: a time may
//! come as text or as a record, a percentage as a number or as text, and
//! several fields under either of two spellings.

pub mod calendar;
pub mod clock;
pub mod decode;
pub mod fault;
pub mod field;
pub mod percent;
pub mod phase;
pub mod query;
pub mod record;
pub mod spelling;
pub mod text;
pub mod wire;

pub use crate::calendar::{CalendarDate, DateTime, Offset, TimeOfDay, ZonedDateTime};
pub use crate::clock::ClockTime;
pub use crate::fault::{DecodeError, Fault, Shape};
pub use crate::field::Field;
pub use crate::phase::{MoonPhase, Phenomenon};
pub use crate::query::{ByDateBuilder, OneDayArgs, PhaseArgs, QueryError};
pub use crate::record::{
    CelestialEvent, ClosestPhase, MoonPhaseEntry, MoonPhasesResponse, OneDay, OneDayData,
    OneDayProps, TzOffset, WhenError,
};
pub use crate::wire::{Entry, Wire};
