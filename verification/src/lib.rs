//! Verified core of the Cloud-PE plugin market: plugin source modes and
//! start-up arguments, plugin file naming, button click tracking, and the
//! decisions of the market, manage, settings, source-selector and loading
//! pages, of plugin installs and updates, and of the window host.

pub mod cards;
pub mod host;
pub mod loading;
pub mod manage;
pub mod market;
pub mod mode;
pub mod plugin;
pub mod selector;
pub mod settings;
pub mod shell;
pub mod tasks;
pub mod text;
pub mod widgets;
