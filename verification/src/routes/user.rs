//! The user account routes: registration in three steps, login, and the
//! account view.

pub mod create_user;
pub mod login;
pub mod register_email;
pub mod registration;
pub mod this;
pub mod verify_email;
