//! The models: a narrow model per surface, each a value its view reads.
//!
//! Every model here is the decisions its surface takes. The exchanges with the
//! daemon and the command line are the application's; what they answer is
//! handed to these values, and what a view draws is read back from them.

pub mod activation;
pub mod api;
pub mod computer;
pub mod doctor;
pub mod home;
pub mod jobs;
pub mod ledger;
pub mod logs;
pub mod meetings;
pub mod notices;
pub mod onboarding;
pub mod pane;
pub mod plugins;
pub mod polling;
pub mod providers;
pub mod recovery;
pub mod secret_store;
pub mod settings_model;
pub mod table;
pub mod transaction;
