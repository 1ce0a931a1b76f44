//! What the service does when it is started to carry out one task and leave.

pub mod users;
