//! Decision logic of the Bibe bike-rental system: the drink dispenser's
//! state machine and its GPIO controller interface, the shared message and
//! bike-status models, the bike service's status-update transaction, and the
//! websocket session protocol between the server and its clients.

pub mod gpio;
pub mod drink_dispenser;
pub mod models;
pub mod bike_service;
pub mod ws;
pub mod session;
pub mod outbound;
