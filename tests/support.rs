use attendance_banner::error::{InputFault, ServiceError};
use attendance_banner::query::parse_limit;
use attendance_banner::responses::ApiResponse;
use attendance_banner::stamp::Stamp;
use attendance_banner::uploads::{image_storage_path, image_url_of, upload_banner_image};

#[test]
fn stamps_read_the_fixed_format() {
    assert_eq!(Stamp::parse("1970-01-01 00:00:00"), Some(Stamp { secs: 0, nanos: 0 }));
    assert_eq!(Stamp::parse("2024-01-01 00:00:01"), Some(Stamp { secs: 1_704_067_201, nanos: 0 }));
    assert_eq!(Stamp::parse("2024-01-01T00:00:00"), None);
    assert_eq!(Stamp::parse(""), None);
}

#[test]
fn stamps_are_ordered() {
    let a = Stamp { secs: 5, nanos: 10 };
    let b = Stamp { secs: 5, nanos: 20 };
    let c = Stamp { secs: 6, nanos: 0 };
    assert!(a.is_before(&b) && b.is_before(&c) && a.is_before(&c));
    assert!(!b.is_before(&a) && !a.is_before(&a));
    assert!(a.is_not_after(&a) && a.is_not_after(&c) && !c.is_not_after(&a));
}

#[test]
fn limits_default_to_fifty() {
    assert_eq!(parse_limit(None), 50);
    assert_eq!(parse_limit(Some("7")), 7);
    assert_eq!(parse_limit(Some("-3")), 50);
    assert_eq!(parse_limit(Some("seven")), 50);
}

#[test]
fn errors_map_to_statuses() {
    assert_eq!(ServiceError::InvalidInput(InputFault::UserId).status_code(), 400);
    assert_eq!(ServiceError::Conflict.status_code(), 409);
    assert_eq!(ServiceError::NotFound.status_code(), 404);
    assert_eq!(ServiceError::StorageError.status_code(), 500);
    assert_eq!(ServiceError::InvalidInput(InputFault::DateOrder).message(), "start_date must be before end_date");
    assert_eq!(ServiceError::InvalidInput(InputFault::UserId).message(), "Invalid user_id");
}

#[test]
fn envelopes_carry_status_and_payload() {
    let ok = ApiResponse::success("Banner created", Some(3));
    assert_eq!(ok.status, "success");
    assert_eq!(ok.message, "Banner created");
    assert_eq!(ok.data, Some(3));
    let err: ApiResponse<i32> = ApiResponse::error("Banner not found");
    assert_eq!(err.status, "error");
    assert_eq!(err.message, "Banner not found");
    assert_eq!(err.data, None);
}

#[test]
fn storage_path_keeps_the_extension() {
    assert_eq!(image_storage_path("abc", "photo.png"), "uploads/banners/abc.png");
    assert_eq!(image_storage_path("abc", "archive.tar.gz"), "uploads/banners/abc.gz");
    assert_eq!(image_storage_path("abc", "noext"), "uploads/banners/abc.jpg");
    assert_eq!(image_url_of("uploads/banners/abc.png"), "/uploads/banners/abc.png");
}

#[test]
fn uploads_get_fresh_names() {
    let a = upload_banner_image("cat.gif");
    let b = upload_banner_image("cat.gif");
    assert_ne!(a.path, b.path);
    assert!(a.path.starts_with("uploads/banners/"));
    assert!(a.path.ends_with(".gif"));
    assert_eq!(a.url, format!("/{}", a.path));
}
