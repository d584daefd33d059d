//! Verified core of an instant-messaging web client: notification queue,
//! registration form, friend search panel, group models and time display.

pub mod text;
pub mod utils;
pub mod notification;
pub mod model;
pub mod home;
pub mod register;
pub mod add_friend;
