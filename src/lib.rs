//! Attendance sessions and a time-windowed banner feed: the rules that decide
//! every request, stated over snapshots of the stored records.

pub mod stamp;
pub mod error;
pub mod responses;
pub mod models;
pub mod ranking;
pub mod query;
pub mod banners;
pub mod visibility;
pub mod attendance;
pub mod laws;
pub mod uploads;
