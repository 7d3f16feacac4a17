//! Verified core of a course-enrollment client: request planning, reply
//! judging and the text the client shows.

pub mod text;
pub mod codec;
pub mod params;
pub mod catalog;
pub mod enroll;
pub mod login;
pub mod captcha;
pub mod display;
pub mod laws;
