//! The logic of the desktop shell of pot: the normal form of
//! global shortcuts and the registry that maps them to actions, how an
//! action's shortcut is registered, the tray menu in eleven languages and
//! what its entries do, and the settings behind them.

pub mod text;
pub mod shortcut;
pub mod normal_form;
pub mod registry;
pub mod hotkey;
pub mod settings;
pub mod updater;
pub mod tray;
