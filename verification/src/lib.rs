//! Request rules of a college management API: who may do what, how requests are
//! checked, how bearer tokens are read, how result pages are cut, how marks are graded.

pub mod error;
pub mod text;
pub mod pagination;
pub mod access;
pub mod validation;
pub mod auth;
pub mod courses;
pub mod exams;
pub mod attendance;
pub mod faculty;
pub mod students;
