//! Coordination of a single tooltip shared by the widgets below one provider.
//!
//! A provider publishes one tooltip state for all the widgets below it.
//! Consumers anywhere below write to that state as the pointer comes over
//! them, moves and goes; the provider reads it and draws the tooltip. All
//! lengths are whole pixels.
//!
//! - [`data`]: the shared state and the three ways in which it changes.
//! - [`context`]: the widget tree and the states that providers published.
//! - [`consumer`]: setting up a consumer and delivering events to it.
//! - [`provider`]: setting up a provider and laying out the tooltip.
//! - [`protocol`]: what holds of every sequence of events.
//! - [`style`]: partial styles and how they compose.
//! - [`event`], [`error`]: the events a widget receives, and what can go
//!   wrong when a widget is set up.

pub mod consumer;
pub mod context;
pub mod data;
pub mod error;
pub mod event;
pub mod protocol;
pub mod provider;
pub mod style;

pub use consumer::{TooltipConsumer, TooltipConsumerProps};
pub use data::TooltipData;
pub use provider::{TooltipProvider, TooltipProviderProps};
