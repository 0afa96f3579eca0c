//! The account, group, home-manager and package-selection logic of a NixOS
//! installer's configuration pages, as verified state machines over plain data.

pub mod text;
pub mod user;
pub mod pkgs;
pub mod keys;
pub mod widgets;
pub mod picker;
pub mod accounts;
pub mod add_user;
pub mod alter_user;
pub mod home_manager;
pub mod system_pkgs;
pub mod help;
