//! Verified core of a system information fetch tool: text measurement and
//! layout, configuration model, calendar arithmetic, module selection and the
//! pure formatting behind each information module.

pub mod text;
pub mod num;
pub mod ascii;
pub mod calendar;
pub mod cli;
pub mod config;
pub mod modules;
pub mod style;
pub mod layout;
pub mod renderer;
pub mod greetings;
pub mod tips;
pub mod wizard;
