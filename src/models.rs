use vstd::prelude::*;
use crate::stamp::Stamp;

verus! {

/// A clock-in or clock-out request.
#[derive(Clone, Debug)]
pub struct ClockRequest {
    pub user_id: String,
}

/// One attendance session as stored and as reported.
#[derive(Clone, Debug)]
pub struct AttendanceDto {
    pub id: i32,
    pub user_id: String,
    pub clock_in_time: Stamp,
    pub clock_out_time: Option<Stamp>,
    pub created_at: Option<Stamp>,
    pub updated_at: Option<Stamp>,
}

/// A request to create a banner; both dates in `YYYY-MM-DD HH:MM:SS`.
#[derive(Clone, Debug)]
pub struct CreateBannerRequest {
    pub title: Option<String>,
    pub content: String,
    pub start_date: String,
    pub end_date: String,
}

/// A partial update of a banner: absent fields stay as they are.
#[derive(Clone, Debug)]
pub struct UpdateBannerRequest {
    pub title: Option<String>,
    pub content: Option<String>,
    pub start_date: Option<String>,
    pub end_date: Option<String>,
    pub is_active: Option<bool>,
}

/// One banner as stored and as reported.
#[derive(Clone, Debug)]
pub struct BannerDto {
    pub id: i32,
    pub title: Option<String>,
    pub content: String,
    pub image_url: Option<String>,
    pub start_date: Stamp,
    pub end_date: Stamp,
    pub is_active: bool,
    pub created_at: Option<Stamp>,
    pub updated_at: Option<Stamp>,
}

/// A copy of an optional text, equal to it.
pub fn copy_text(t: &Option<String>) -> (r: Option<String>)
    ensures
        r == *t,
{
    match t {
        Some(s) => Some(s.clone()),
        None => None,
    }
}

impl AttendanceDto {
    /// A field-by-field copy, equal to the original.
    pub fn duplicate(&self) -> (r: Self)
        ensures
            r == *self,
    {
        AttendanceDto {
            id: self.id,
            user_id: self.user_id.clone(),
            clock_in_time: self.clock_in_time,
            clock_out_time: self.clock_out_time,
            created_at: self.created_at,
            updated_at: self.updated_at,
        }
    }
}

impl BannerDto {
    /// A field-by-field copy, equal to the original.
    pub fn duplicate(&self) -> (r: Self)
        ensures
            r == *self,
    {
        BannerDto {
            id: self.id,
            title: copy_text(&self.title),
            content: self.content.clone(),
            image_url: copy_text(&self.image_url),
            start_date: self.start_date,
            end_date: self.end_date,
            is_active: self.is_active,
            created_at: self.created_at,
            updated_at: self.updated_at,
        }
    }
}

} // verus!
