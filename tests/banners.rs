use attendance_banner::banners::{
    apply_banner_patch, create_banner, create_parsed_banner, delete_banner, get_banner, update_banner,
    update_banner_image, BannerBoard, BannerPatch,
};
use attendance_banner::error::{InputFault, ServiceError};
use attendance_banner::models::{BannerDto, CreateBannerRequest, UpdateBannerRequest};
use attendance_banner::stamp::Stamp;
use attendance_banner::visibility::{get_active_banner, get_banners};

fn at(secs: i64) -> Stamp {
    Stamp { secs, nanos: 0 }
}

fn empty_board() -> BannerBoard {
    BannerBoard { banners: Vec::new(), next_id: 1 }
}

fn create_req(title: Option<&str>, content: &str, start: &str, end: &str) -> CreateBannerRequest {
    CreateBannerRequest {
        title: title.map(|t| t.to_string()),
        content: content.to_string(),
        start_date: start.to_string(),
        end_date: end.to_string(),
    }
}

fn no_change() -> UpdateBannerRequest {
    UpdateBannerRequest { title: None, content: None, start_date: None, end_date: None, is_active: None }
}

fn banner(id: i32, start: i64, end: i64, active: bool, created: Option<i64>) -> BannerDto {
    BannerDto {
        id,
        title: None,
        content: format!("banner {}", id),
        image_url: None,
        start_date: at(start),
        end_date: at(end),
        is_active: active,
        created_at: created.map(at),
        updated_at: created.map(at),
    }
}

#[test]
fn create_with_start_after_end_is_invalid() {
    let mut board = empty_board();
    let r = create_banner(
        &mut board,
        &create_req(None, "Sale", "2024-01-02 00:00:00", "2024-01-01 00:00:00"),
        at(0),
    );
    assert!(matches!(r, Err(ServiceError::InvalidInput(InputFault::DateOrder))));
    let r = create_banner(
        &mut board,
        &create_req(None, "Sale", "2024-01-01 00:00:00", "2024-01-01 00:00:00"),
        at(0),
    );
    assert!(matches!(r, Err(ServiceError::InvalidInput(InputFault::DateOrder))));
    assert!(board.banners.is_empty());
}

#[test]
fn create_sale_banner_succeeds() {
    let mut board = empty_board();
    let now = at(1_700_000_000);
    let b = create_banner(
        &mut board,
        &create_req(None, "Sale", "2024-01-01 00:00:00", "2024-12-31 23:59:59"),
        now,
    )
    .unwrap();
    assert!(b.is_active);
    assert_eq!(b.image_url, None);
    assert_eq!(b.content, "Sale");
    assert_eq!(b.title, None);
    assert_eq!(b.id, 1);
    assert_eq!(b.start_date, at(1_704_067_200));
    assert_eq!(b.end_date, at(1_735_689_599));
    assert_eq!(b.created_at, Some(now));
    assert_eq!(b.updated_at, Some(now));
    assert_eq!(board.banners.len(), 1);
    assert_eq!(board.next_id, 2);
}

#[test]
fn create_with_bad_dates_names_the_field() {
    let mut board = empty_board();
    let r = create_banner(&mut board, &create_req(None, "x", "2024/01/01", "2024-12-31 23:59:59"), at(0));
    assert!(matches!(r, Err(ServiceError::InvalidInput(InputFault::StartDate))));
    let r = create_banner(&mut board, &create_req(None, "x", "2024-01-01 00:00:00", "tomorrow"), at(0));
    assert!(matches!(r, Err(ServiceError::InvalidInput(InputFault::EndDate))));
    let r = create_banner(&mut board, &create_req(None, "x", "2024-13-01 00:00:00", "2024-12-31 23:59:59"), at(0));
    assert!(matches!(r, Err(ServiceError::InvalidInput(InputFault::StartDate))));
}

#[test]
fn parsed_banner_keeps_title() {
    let mut board = empty_board();
    let b = create_parsed_banner(
        &mut board,
        Some("Holiday".to_string()),
        "Big sale".to_string(),
        Some(at(10)),
        Some(at(20)),
        at(5),
    )
    .unwrap();
    assert_eq!(b.title.as_deref(), Some("Holiday"));
    let r = create_parsed_banner(&mut board, None, "x".to_string(), None, Some(at(20)), at(5));
    assert!(matches!(r, Err(ServiceError::InvalidInput(InputFault::StartDate))));
}

#[test]
fn empty_board_shows_default_banner() {
    let now = at(1000);
    let d = get_active_banner(&empty_board(), now);
    assert_eq!(d.id, 0);
    assert_eq!(d.title.as_deref(), Some("Welcome"));
    assert_eq!(d.content, "This is the default banner announcement.");
    assert_eq!(d.image_url, None);
    assert_eq!(d.start_date, now);
    assert_eq!(d.end_date, now);
    assert!(d.is_active);
    assert_eq!(d.created_at, Some(now));
}

#[test]
fn banners_out_of_window_show_default() {
    let board = BannerBoard {
        banners: vec![
            banner(1, 100, 1000, true, Some(1)),
            banner(2, 2000, 3000, true, Some(1)),
            banner(3, 100, 3000, false, Some(1)),
        ],
        next_id: 4,
    };
    let d = get_active_banner(&board, at(1000));
    assert_eq!(d.id, 0);
    let shown = get_active_banner(&board, at(999));
    assert_eq!(shown.id, 1);
    let started = get_active_banner(&board, at(2000));
    assert_eq!(started.id, 2);
}

#[test]
fn sooner_ending_banner_is_shown() {
    let board = BannerBoard {
        banners: vec![banner(1, 0, 900, true, Some(5)), banner(2, 0, 800, true, Some(1))],
        next_id: 3,
    };
    assert_eq!(get_active_banner(&board, at(100)).id, 2);
}

#[test]
fn later_created_banner_wins_a_tie() {
    let board = BannerBoard {
        banners: vec![
            banner(1, 0, 900, true, Some(5)),
            banner(2, 0, 900, true, Some(7)),
            banner(3, 0, 900, true, None),
        ],
        next_id: 4,
    };
    assert_eq!(get_active_banner(&board, at(100)).id, 2);
}

#[test]
fn delete_missing_banner_is_not_found() {
    let mut board = BannerBoard { banners: vec![banner(1, 0, 10, true, Some(1))], next_id: 2 };
    assert!(matches!(delete_banner(&mut board, 7), Err(ServiceError::NotFound)));
    assert_eq!(board.banners.len(), 1);
}

#[test]
fn deleted_banner_cannot_be_found() {
    let mut board = BannerBoard {
        banners: vec![banner(1, 0, 10, true, Some(1)), banner(2, 0, 10, true, Some(2))],
        next_id: 3,
    };
    assert!(get_banner(&board, 1).is_ok());
    assert!(delete_banner(&mut board, 1).is_ok());
    assert!(matches!(get_banner(&board, 1), Err(ServiceError::NotFound)));
    assert_eq!(get_banner(&board, 2).unwrap().id, 2);
    assert_eq!(board.banners.len(), 1);
}

#[test]
fn update_missing_banner_is_not_found() {
    let mut board = empty_board();
    let r = update_banner(&mut board, 3, &no_change(), at(0));
    assert!(matches!(r, Err(ServiceError::NotFound)));
}

#[test]
fn update_changes_only_given_fields() {
    let mut board = BannerBoard { banners: vec![banner(1, 0, 1000, true, Some(1))], next_id: 2 };
    let mut req = no_change();
    req.title = Some("New".to_string());
    req.is_active = Some(false);
    let b = update_banner(&mut board, 1, &req, at(50)).unwrap();
    assert_eq!(b.title.as_deref(), Some("New"));
    assert!(!b.is_active);
    assert_eq!(b.content, "banner 1");
    assert_eq!(b.start_date, at(0));
    assert_eq!(b.end_date, at(1000));
    assert_eq!(b.created_at, Some(at(1)));
    assert_eq!(b.updated_at, Some(at(50)));
    assert_eq!(board.banners[0].title.as_deref(), Some("New"));
}

#[test]
fn update_reads_dates() {
    let mut board = BannerBoard { banners: vec![banner(1, 0, 2_000_000_000, true, Some(1))], next_id: 2 };
    let mut req = no_change();
    req.start_date = Some("2024-01-01 00:00:00".to_string());
    let b = update_banner(&mut board, 1, &req, at(50)).unwrap();
    assert_eq!(b.start_date, at(1_704_067_200));
    let mut bad = no_change();
    bad.end_date = Some("soon".to_string());
    let r = update_banner(&mut board, 1, &bad, at(60));
    assert!(matches!(r, Err(ServiceError::InvalidInput(InputFault::EndDate))));
    let mut bad = no_change();
    bad.start_date = Some("2024-01-01".to_string());
    let r = update_banner(&mut board, 1, &bad, at(60));
    assert!(matches!(r, Err(ServiceError::InvalidInput(InputFault::StartDate))));
    assert_eq!(board.banners[0].updated_at, Some(at(50)));
}

#[test]
fn update_keeps_dates_in_order() {
    let mut board = BannerBoard { banners: vec![banner(1, 100, 200, true, Some(1))], next_id: 2 };
    let patch = BannerPatch { title: None, content: None, start_date: Some(Some(at(300))), end_date: None, is_active: None };
    let r = apply_banner_patch(&mut board, 1, patch, at(5));
    assert!(matches!(r, Err(ServiceError::InvalidInput(InputFault::DateOrder))));
    let patch = BannerPatch {
        title: None,
        content: Some("moved".to_string()),
        start_date: Some(Some(at(300))),
        end_date: Some(Some(at(400))),
        is_active: None,
    };
    let b = apply_banner_patch(&mut board, 1, patch, at(5)).unwrap();
    assert_eq!((b.start_date, b.end_date), (at(300), at(400)));
    assert_eq!(b.content, "moved");
}

#[test]
fn image_reference_is_recorded() {
    let mut board = BannerBoard { banners: vec![banner(1, 0, 10, true, Some(1))], next_id: 2 };
    let b = update_banner_image(&mut board, 1, "/uploads/banners/a.png".to_string(), at(9)).unwrap();
    assert_eq!(b.image_url.as_deref(), Some("/uploads/banners/a.png"));
    assert_eq!(b.updated_at, Some(at(9)));
    assert_eq!(board.banners[0].image_url.as_deref(), Some("/uploads/banners/a.png"));
    let r = update_banner_image(&mut board, 2, "/x".to_string(), at(9));
    assert!(matches!(r, Err(ServiceError::NotFound)));
}

#[test]
fn listing_is_newest_first() {
    let board = BannerBoard {
        banners: vec![
            banner(1, 0, 10, true, Some(5)),
            banner(2, 0, 10, true, None),
            banner(3, 0, 10, true, Some(9)),
            banner(4, 0, 10, false, Some(7)),
        ],
        next_id: 5,
    };
    let ids: Vec<i32> = get_banners(&board, None).iter().map(|b| b.id).collect();
    assert_eq!(ids, vec![3, 4, 1, 2]);
    let ids: Vec<i32> = get_banners(&board, Some("2")).iter().map(|b| b.id).collect();
    assert_eq!(ids, vec![3, 4]);
    assert!(get_banners(&empty_board(), None).is_empty());
}
