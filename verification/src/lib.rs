//! A retained-mode GUI toolkit for small displays: a statically composed
//! widget tree with a measure, arrange, draw pipeline, input hit-testing and
//! per-widget interaction state.
//!
//! A tree is built from leaves (`label`, `radio`), decorators that wrap one
//! widget (`spacing`, `border`, `background`, `fill`, `visibility`,
//! `button`) and layouts that hold a chain of weighted cells (`column`,
//! `row`). Each frame the host updates, measures, arranges and draws the
//! tree, and hands it the input events in between.
//!
//! The functions of this crate carry contracts that Verus proves against
//! their bodies. The exceptions are the two calls in `text_box` that have
//! `embedded-text` lay a text out and `embedded-graphics` measure it: what
//! is said of their results is taken on trust. Sizes saturate at the `u32`
//! range and positions wrap around the `i32` range, so no layout operation
//! can overflow.

pub mod background;
pub mod border;
pub mod button;
pub mod column;
pub mod data;
pub mod dispatch;
pub mod fill;
pub mod geometry;
pub mod input;
pub mod label;
pub mod layout;
pub mod linear;
pub mod measurement;
pub mod radio;
pub mod row;
pub mod spacing;
pub mod state;
pub mod text_box;
pub mod visibility;
pub mod widget;
pub mod wrapper;
