pub mod text;
pub mod timeperiod;
pub mod seqs;
pub mod period_data;
pub mod streak;
pub mod account;
pub mod badge;
pub mod pr;
pub mod github;
pub mod health;
pub mod lifecycle;
pub mod commands;
pub mod events;
pub mod bot;
pub mod messages;
pub mod records;
pub mod render;
pub mod responses;
pub mod stats;
