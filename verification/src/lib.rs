//! State synchronisation for a terminal dashboard of a remote download
//! service: the data model, the reconciliation of delta responses into a
//! local snapshot, the command dispatcher and the session recovery, and the
//! key and mouse handling that works on the snapshot.
//!
//! Nothing in this crate performs I/O. A caller performs each remote call,
//! file probe or terminal operation and hands the outcome to the functions
//! of this crate as plain values.

pub mod text;
pub mod humanize;

pub mod model;
pub mod app;
pub mod sorting;
pub mod reconcile;
pub mod ui;
pub mod api;
pub mod input;
pub mod handlers;
pub mod startup;
