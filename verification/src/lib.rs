//! The client of a multi-criteria ranking service, without its window.
//!
//! Experts log in, see the rankings that are open to them, and judge: which
//! of two alternatives is better under a criterion, and how much each
//! criterion matters. Administrators also create, edit and delete rankings
//! and what belongs to them.
//!
//! The client is driven one frame at a time. A frame is given what happened
//! since the last one (what was pressed, what a fetch was parsed to) and says
//! what to show and which requests to send. Whoever sends a request reports
//! its outcome to the slot that waits for it. Nothing here touches the
//! network or the screen, so every decision of the client is a function of
//! what it was told, and is specified and proved as such:
//!
//! * [`download`] holds the slot that keeps each operation to one fetch at a
//!   time, [`http`] the requests and responses, and [`ticket`] the numbers
//!   under which outcomes are taken;
//! * [`login`] leads from the credentials over the token to the session;
//! * [`data`] is the controller that fills the screen that is shown and
//!   changes it, and [`view`] what all screens share;
//! * [`rank`] is the voting flow, which draws its pairs as [`pairing`] says;
//! * [`ranking_list`], [`edit`], [`forms`] and [`delete`] are the screens of
//!   the administration;
//! * [`app`] puts login and controller together.

pub mod app;
pub mod create_ranking;
pub mod data;
pub mod delete;
pub mod download;
pub mod edit;
pub mod forms;
pub mod http;
pub mod login;
pub mod moment;
pub mod pairing;
pub mod rank;
pub mod ranking_list;
pub mod schema;
pub mod section;
pub mod section_list;
pub mod submit;
pub mod text;
pub mod ticket;
pub mod view;
