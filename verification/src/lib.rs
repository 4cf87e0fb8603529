//! Verified core of the openpista terminal chat client: input editing,
//! command palette, browsers, session sidebar and the state machine that
//! turns keys and actions into state changes and side-effect commands.

pub mod text;
pub mod keys;
pub mod providers;
pub mod catalog;
pub mod state;
pub mod app;
pub mod browse;
pub mod selection;
pub mod editing;
pub mod input;
pub mod wizard;
pub mod qr;
pub mod action;
pub mod events;
pub mod commands;
pub mod driver;
pub mod view;
pub mod laws;
pub mod audit_laws;
