//! Core of a small recipe-and-ingredient browser: message-driven component
//! state machines, a dispatch loop with self-enqueued follow-up messages,
//! at-most-one-in-flight task handles, form validation, and a pure list
//! filter projection.
//!
//! Everything here is plain data and decisions. The surrounding program owns
//! the rendering and the network: it delivers messages to these machines,
//! carries out the actions they hand back, and feeds completions in again.

pub mod header;
pub mod ingredient;
pub mod ingredients_page;
pub mod modal;
pub mod new_ingredients_form;
pub mod new_recipe_form;
pub mod task;
pub mod text;
