use vstd::prelude::*;
use crate::error::{InputFault, ServiceError};
use crate::models::{copy_text, BannerDto, CreateBannerRequest, UpdateBannerRequest};
use crate::stamp::{precedes, stamp_parsed, Stamp};

verus! {

/// A snapshot of the stored banners, with the id the next one will get.
pub struct BannerBoard {
    pub banners: Vec<BannerDto>,
    pub next_id: i32,
}

/// The board holds the same banners and will hand out the same id.
pub open spec fn same_board(a: BannerBoard, b: BannerBoard) -> bool {
    a.banners@ == b.banners@ && a.next_id == b.next_id
}

/// Whether a banner with this id is stored.
pub open spec fn has_id(s: Seq<BannerDto>, id: i32) -> bool {
    exists|i: int| 0 <= i < s.len() && #[trigger] s[i].id == id
}

/// `i` is the first position that holds a banner with this id.
pub open spec fn first_with_id(s: Seq<BannerDto>, id: i32, i: int) -> bool {
    0 <= i < s.len() && s[i].id == id && forall|j: int| 0 <= j < i ==> #[trigger] s[j].id != id
}

/// Creating from parsed dates: `start`, `end` are what the two texts read as.
pub open spec fn creation(
    before: BannerBoard,
    after: BannerBoard,
    title: Option<String>,
    content: String,
    start: Option<Stamp>,
    end: Option<Stamp>,
    now: Stamp,
    r: Result<BannerDto, ServiceError>,
) -> bool {
    match (start, end) {
        (None, _) => r == Err::<BannerDto, ServiceError>(ServiceError::InvalidInput(InputFault::StartDate))
            && same_board(before, after),
        (Some(_), None) => r == Err::<BannerDto, ServiceError>(ServiceError::InvalidInput(InputFault::EndDate))
            && same_board(before, after),
        (Some(s), Some(e)) => if !precedes(s, e) {
            r == Err::<BannerDto, ServiceError>(ServiceError::InvalidInput(InputFault::DateOrder))
                && same_board(before, after)
        } else if before.next_id == i32::MAX {
            r == Err::<BannerDto, ServiceError>(ServiceError::StorageError) && same_board(before, after)
        } else {
            let b = BannerDto {
                id: before.next_id,
                title,
                content,
                image_url: None,
                start_date: s,
                end_date: e,
                is_active: true,
                created_at: Some(now),
                updated_at: Some(now),
            };
            &&& r == Ok::<BannerDto, ServiceError>(b)
            &&& after.banners@ == before.banners@.push(b)
            &&& after.next_id == before.next_id + 1
        },
    }
}

/// Finds the first banner with this id.
fn locate(banners: &Vec<BannerDto>, id: i32) -> (r: Option<usize>)
    ensures
        match r {
            Some(i) => first_with_id(banners@, id, i as int),
            None => !has_id(banners@, id),
        },
{
    let mut i: usize = 0;
    while i < banners.len()
        invariant
            i <= banners.len(),
            forall|j: int| 0 <= j < i ==> #[trigger] banners@[j].id != id,
        decreases banners.len() - i,
    {
        if banners[i].id == id {
            return Some(i);
        }
        i = i + 1;
    }
    None
}

/// Adds a banner whose dates were already read; fails unless the start
/// lies strictly before the end.
pub fn create_parsed_banner(
    board: &mut BannerBoard,
    title: Option<String>,
    content: String,
    start: Option<Stamp>,
    end: Option<Stamp>,
    now: Stamp,
) -> (r: Result<BannerDto, ServiceError>)
    ensures
        creation(*old(board), *final(board), title, content, start, end, now, r),
{
    let s = match start {
        Some(s) => s,
        None => {
            return Err(ServiceError::InvalidInput(InputFault::StartDate));
        },
    };
    let e = match end {
        Some(e) => e,
        None => {
            return Err(ServiceError::InvalidInput(InputFault::EndDate));
        },
    };
    if !s.is_before(&e) {
        return Err(ServiceError::InvalidInput(InputFault::DateOrder));
    }
    if board.next_id == i32::MAX {
        return Err(ServiceError::StorageError);
    }
    let b = BannerDto {
        id: board.next_id,
        title,
        content,
        image_url: None,
        start_date: s,
        end_date: e,
        is_active: true,
        created_at: Some(now),
        updated_at: Some(now),
    };
    board.banners.push(b.duplicate());
    board.next_id = board.next_id + 1;
    Ok(b)
}

/// Creates a banner from a request whose dates are `YYYY-MM-DD HH:MM:SS`.
pub fn create_banner(board: &mut BannerBoard, req: &CreateBannerRequest, now: Stamp) -> (r: Result<
    BannerDto,
    ServiceError,
>)
    ensures
        creation(
            *old(board),
            *final(board),
            req.title,
            req.content,
            stamp_parsed(req.start_date@),
            stamp_parsed(req.end_date@),
            now,
            r,
        ),
{
    let start = Stamp::parse(req.start_date.as_str());
    let end = Stamp::parse(req.end_date.as_str());
    create_parsed_banner(board, copy_text(&req.title), req.content.clone(), start, end, now)
}

/// A partial update whose dates were already read: for each date,
/// `None` leaves it, `Some(None)` is a text that did not read as a date.
pub struct BannerPatch {
    pub title: Option<String>,
    pub content: Option<String>,
    pub start_date: Option<Option<Stamp>>,
    pub end_date: Option<Option<Stamp>>,
    pub is_active: Option<bool>,
}

/// The patch that an update request stands for.
pub open spec fn patch_of(req: UpdateBannerRequest) -> BannerPatch {
    BannerPatch {
        title: req.title,
        content: req.content,
        start_date: match req.start_date {
            Some(t) => Some(stamp_parsed(t@)),
            None => None,
        },
        end_date: match req.end_date {
            Some(t) => Some(stamp_parsed(t@)),
            None => None,
        },
        is_active: req.is_active,
    }
}

/// A present value replaces the stored one.
pub open spec fn or_keep<T>(given: Option<T>, kept: T) -> T {
    match given {
        Some(v) => v,
        None => kept,
    }
}

/// What a patch makes of a stored banner. A date that does not read
/// fails; once a date is given the two must still be in order.
pub open spec fn patched(b: BannerDto, p: BannerPatch, now: Stamp) -> Result<BannerDto, ServiceError> {
    if p.start_date == Some(None::<Stamp>) {
        Err(ServiceError::InvalidInput(InputFault::StartDate))
    } else if p.end_date == Some(None::<Stamp>) {
        Err(ServiceError::InvalidInput(InputFault::EndDate))
    } else {
        let s = match p.start_date {
            Some(Some(t)) => t,
            _ => b.start_date,
        };
        let e = match p.end_date {
            Some(Some(t)) => t,
            _ => b.end_date,
        };
        if (p.start_date.is_some() || p.end_date.is_some()) && !precedes(s, e) {
            Err(ServiceError::InvalidInput(InputFault::DateOrder))
        } else {
            Ok(
                BannerDto {
                    id: b.id,
                    title: match p.title {
                        Some(t) => Some(t),
                        None => b.title,
                    },
                    content: or_keep(p.content, b.content),
                    image_url: b.image_url,
                    start_date: s,
                    end_date: e,
                    is_active: or_keep(p.is_active, b.is_active),
                    created_at: b.created_at,
                    updated_at: Some(now),
                },
            )
        }
    }
}

/// The outcome of a change `change` to the banner with this id.
pub open spec fn changed_by(
    before: BannerBoard,
    after: BannerBoard,
    id: i32,
    change: spec_fn(BannerDto) -> Result<BannerDto, ServiceError>,
    r: Result<BannerDto, ServiceError>,
) -> bool {
    &&& !has_id(before.banners@, id) ==> r == Err::<BannerDto, ServiceError>(ServiceError::NotFound)
        && same_board(before, after)
    &&& forall|i: int| #[trigger]
        first_with_id(before.banners@, id, i) ==> r == change(before.banners@[i]) && match r {
            Ok(nb) => after.banners@ == before.banners@.update(i, nb) && after.next_id == before.next_id,
            Err(_) => same_board(before, after),
        }
}

/// Applies a patch whose dates were already read to the banner with this id.
pub fn apply_banner_patch(board: &mut BannerBoard, id: i32, patch: BannerPatch, now: Stamp) -> (r: Result<
    BannerDto,
    ServiceError,
>)
    ensures
        changed_by(*old(board), *final(board), id, |b: BannerDto| patched(b, patch, now), r),
{
    let i = match locate(&board.banners, id) {
        Some(i) => i,
        None => {
            return Err(ServiceError::NotFound);
        },
    };
    let b = board.banners[i].duplicate();
    let s = match patch.start_date {
        Some(Some(t)) => t,
        Some(None) => {
            return Err(ServiceError::InvalidInput(InputFault::StartDate));
        },
        None => b.start_date,
    };
    let e = match patch.end_date {
        Some(Some(t)) => t,
        Some(None) => {
            return Err(ServiceError::InvalidInput(InputFault::EndDate));
        },
        None => b.end_date,
    };
    if (patch.start_date.is_some() || patch.end_date.is_some()) && !s.is_before(&e) {
        return Err(ServiceError::InvalidInput(InputFault::DateOrder));
    }
    let nb = BannerDto {
        id: b.id,
        title: match patch.title {
            Some(t) => Some(t),
            None => b.title,
        },
        content: match patch.content {
            Some(c) => c,
            None => b.content,
        },
        image_url: b.image_url,
        start_date: s,
        end_date: e,
        is_active: match patch.is_active {
            Some(a) => a,
            None => b.is_active,
        },
        created_at: b.created_at,
        updated_at: Some(now),
    };
    board.banners.set(i, nb.duplicate());
    Ok(nb)
}

/// Reads the dates of an update request and applies it to the banner with
/// this id.
pub fn update_banner(board: &mut BannerBoard, id: i32, req: &UpdateBannerRequest, now: Stamp) -> (r: Result<
    BannerDto,
    ServiceError,
>)
    ensures
        changed_by(*old(board), *final(board), id, |b: BannerDto| patched(b, patch_of(*req), now), r),
{
    let patch = BannerPatch {
        title: copy_text(&req.title),
        content: copy_text(&req.content),
        start_date: match &req.start_date {
            Some(t) => Some(Stamp::parse(t.as_str())),
            None => None,
        },
        end_date: match &req.end_date {
            Some(t) => Some(Stamp::parse(t.as_str())),
            None => None,
        },
        is_active: req.is_active,
    };
    apply_banner_patch(board, id, patch, now)
}

/// A banner with its image reference set.
pub open spec fn with_image(b: BannerDto, image_url: String, now: Stamp) -> Result<BannerDto, ServiceError> {
    Ok(BannerDto { image_url: Some(image_url), updated_at: Some(now), ..b })
}

/// Records the reference of a stored image on the banner with this id.
pub fn update_banner_image(board: &mut BannerBoard, id: i32, image_url: String, now: Stamp) -> (r: Result<
    BannerDto,
    ServiceError,
>)
    ensures
        changed_by(*old(board), *final(board), id, |b: BannerDto| with_image(b, image_url, now), r),
{
    let i = match locate(&board.banners, id) {
        Some(i) => i,
        None => {
            return Err(ServiceError::NotFound);
        },
    };
    let mut nb = board.banners[i].duplicate();
    nb.image_url = Some(image_url);
    nb.updated_at = Some(now);
    board.banners.set(i, nb.duplicate());
    Ok(nb)
}

/// The answer to a lookup by id: the first banner with it, if any.
pub open spec fn lookup(s: Seq<BannerDto>, id: i32, r: Result<BannerDto, ServiceError>) -> bool {
    &&& !has_id(s, id) ==> r == Err::<BannerDto, ServiceError>(ServiceError::NotFound)
    &&& forall|i: int| #[trigger] first_with_id(s, id, i) ==> r == Ok::<BannerDto, ServiceError>(s[i])
}

/// Looks a banner up by id.
pub fn get_banner(board: &BannerBoard, id: i32) -> (r: Result<BannerDto, ServiceError>)
    ensures
        lookup(board.banners@, id, r),
{
    match locate(&board.banners, id) {
        Some(i) => Ok(board.banners[i].duplicate()),
        None => Err(ServiceError::NotFound),
    }
}

/// Holds of the banners with another id.
pub open spec fn other_id(id: i32) -> spec_fn(BannerDto) -> bool {
    |b: BannerDto| b.id != id
}

/// Deleting by id: every banner with it goes; without one, nothing changes.
pub open spec fn deletion(before: BannerBoard, after: BannerBoard, id: i32, r: Result<(), ServiceError>) -> bool {
    if has_id(before.banners@, id) {
        r == Ok::<(), ServiceError>(()) && after.banners@ == before.banners@.filter(other_id(id))
            && after.next_id == before.next_id
    } else {
        r == Err::<(), ServiceError>(ServiceError::NotFound) && same_board(before, after)
    }
}

/// Removes every banner with this id; fails when there is none.
pub fn delete_banner(board: &mut BannerBoard, id: i32) -> (r: Result<(), ServiceError>)
    ensures
        deletion(*old(board), *final(board), id, r),
{
    if locate(&board.banners, id).is_none() {
        return Err(ServiceError::NotFound);
    }
    let ghost before = board.banners@;
    let mut kept: Vec<BannerDto> = Vec::new();
    let mut i: usize = 0;
    while i < board.banners.len()
        invariant
            i <= board.banners.len(),
            board.banners@ == before,
            kept@ == before.subrange(0, i as int).filter(other_id(id)),
        decreases board.banners.len() - i,
    {
        let ghost next = before.subrange(0, i + 1);
        proof {
            assert(next.drop_last() == before.subrange(0, i as int));
            assert(next.last() == before[i as int]);
            reveal(Seq::filter);
            assert(next.filter(other_id(id)) == if other_id(id)(next.last()) {
                next.drop_last().filter(other_id(id)).push(next.last())
            } else {
                next.drop_last().filter(other_id(id))
            });
        }
        if board.banners[i].id != id {
            kept.push(board.banners[i].duplicate());
        }
        i = i + 1;
    }
    assert(before.subrange(0, before.len() as int) == before);
    board.banners = kept;
    Ok(())
}

} // verus!
