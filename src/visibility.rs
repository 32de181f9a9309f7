use vstd::prelude::*;
use vstd::string::*;
use crate::banners::BannerBoard;
use crate::models::BannerDto;
use crate::query::{parse_limit, requested_limit};
use crate::ranking::{key_le, newest_first, ranked};
use crate::stamp::{not_after, precedes, Stamp};

verus! {

/// The banner may be shown at `now`: switched on, started, not yet ended.
pub open spec fn in_window(b: BannerDto, now: Stamp) -> bool {
    b.is_active && not_after(b.start_date, now) && precedes(now, b.end_date)
}

/// `a` is shown in preference to `b`, or the two rank alike: the one that
/// ends sooner first, then the one created later.
pub open spec fn outranks(a: BannerDto, b: BannerDto) -> bool {
    precedes(a.end_date, b.end_date) || (a.end_date == b.end_date && key_le(b.created_at, a.created_at))
}

/// Some stored banner may be shown at `now`.
pub open spec fn any_in_window(s: Seq<BannerDto>, now: Stamp) -> bool {
    exists|i: int| 0 <= i < s.len() && in_window(#[trigger] s[i], now)
}

pub const DEFAULT_TITLE: &'static str = "Welcome";

pub const DEFAULT_CONTENT: &'static str = "This is the default banner announcement.";

/// The placeholder shown when no stored banner qualifies.
pub open spec fn is_default_banner(r: BannerDto, now: Stamp) -> bool {
    &&& r.id == 0
    &&& r.title.is_some() && r.title.unwrap()@ == DEFAULT_TITLE@
    &&& r.content@ == DEFAULT_CONTENT@
    &&& r.image_url.is_none()
    &&& r.start_date == now && r.end_date == now
    &&& r.is_active
    &&& r.created_at == Some(now) && r.updated_at == Some(now)
}

/// `r` is the banner to show at `now`: a stored banner in its window that
/// outranks every other in its window, or the placeholder when none is.
pub open spec fn selects(s: Seq<BannerDto>, now: Stamp, r: BannerDto) -> bool {
    if any_in_window(s, now) {
        exists|i: int|
            0 <= i < s.len() && #[trigger] s[i] == r && in_window(r, now) && forall|j: int|
                0 <= j < s.len() && in_window(#[trigger] s[j], now) ==> outranks(r, s[j])
    } else {
        is_default_banner(r, now)
    }
}

fn in_window_at(b: &BannerDto, now: &Stamp) -> (r: bool)
    ensures
        r == in_window(*b, *now),
{
    b.is_active && b.start_date.is_not_after(now) && now.is_before(&b.end_date)
}

/// Whether `a` ranks strictly ahead of `b`.
fn ahead_of(a: &BannerDto, b: &BannerDto) -> (r: bool)
    ensures
        r == !outranks(*b, *a),
{
    if a.end_date.is_before(&b.end_date) {
        true
    } else if a.end_date == b.end_date {
        match (&a.created_at, &b.created_at) {
            (None, _) => false,
            (Some(_), None) => true,
            (Some(x), Some(y)) => y.is_before(x),
        }
    } else {
        false
    }
}

/// The placeholder banner at `now`.
pub fn default_banner(now: Stamp) -> (r: BannerDto)
    ensures
        is_default_banner(r, now),
{
    BannerDto {
        id: 0,
        title: Some(String::from_str(DEFAULT_TITLE)),
        content: String::from_str(DEFAULT_CONTENT),
        image_url: None,
        start_date: now,
        end_date: now,
        is_active: true,
        created_at: Some(now),
        updated_at: Some(now),
    }
}

/// The banner to show at `now`.
pub fn get_active_banner(board: &BannerBoard, now: Stamp) -> (r: BannerDto)
    ensures
        selects(board.banners@, now, r),
{
    let s = &board.banners;
    let mut best: Option<usize> = None;
    let mut j: usize = 0;
    while j < s.len()
        invariant
            j <= s.len(),
            match best {
                Some(b) => (b as int) < s.len() && in_window(s@[b as int], now) && forall|x: int|
                    0 <= x < j && in_window(#[trigger] s@[x], now) ==> outranks(s@[b as int], s@[x]),
                None => forall|x: int| 0 <= x < j ==> !in_window(#[trigger] s@[x], now),
            },
        decreases s.len() - j,
    {
        if in_window_at(&s[j], &now) {
            match best {
                Some(b) => {
                    if ahead_of(&s[j], &s[b]) {
                        best = Some(j);
                    }
                },
                None => {
                    best = Some(j);
                },
            }
        }
        j = j + 1;
    }
    match best {
        Some(b) => {
            let r = s[b].duplicate();
            assert(s@[b as int] == r);
            r
        },
        None => default_banner(now),
    }
}

/// The stored banners, most recently created first, at most `limit` of
/// them as a listing request reads it.
pub open spec fn listing(s: Seq<BannerDto>, limit: int, r: Seq<BannerDto>) -> bool {
    exists|idx: Seq<usize>|
        ranked(Seq::new(s.len(), |i: int| s[i].created_at), Seq::new(s.len(), |i: int| true), limit, idx)
            && r.len() == idx.len() && forall|k: int| 0 <= k < r.len() ==> #[trigger] r[k] == s[idx[k] as int]
}

/// Lists the stored banners, most recently created first.
pub fn get_banners(board: &BannerBoard, limit: Option<&str>) -> (r: Vec<BannerDto>)
    ensures
        listing(board.banners@, requested_limit(limit) as int, r@),
{
    let lim = parse_limit(limit);
    let s = &board.banners;
    let mut keys: Vec<Option<Stamp>> = Vec::new();
    let mut mask: Vec<bool> = Vec::new();
    let mut i: usize = 0;
    while i < s.len()
        invariant
            i <= s.len(),
            keys.len() == i,
            mask.len() == i,
            forall|x: int| 0 <= x < i ==> keys@[x] == #[trigger] s@[x].created_at,
            forall|x: int| 0 <= x < i ==> #[trigger] mask@[x],
        decreases s.len() - i,
    {
        keys.push(s[i].created_at);
        mask.push(true);
        i = i + 1;
    }
    let idx = newest_first(&keys, &mask, lim);
    assert forall|x: int| 0 <= x < idx.len() implies (idx@[x] as int) < s.len() by {
        assert(mask@[idx@[x] as int]);
    }
    let mut out: Vec<BannerDto> = Vec::new();
    let mut k: usize = 0;
    while k < idx.len()
        invariant
            k <= idx.len(),
            keys.len() == s.len(),
            forall|x: int| 0 <= x < idx.len() ==> (idx@[x] as int) < s.len(),
            out.len() == k,
            forall|x: int| 0 <= x < k ==> #[trigger] out@[x] == s@[idx@[x] as int],
        decreases idx.len() - k,
    {
        out.push(s[idx[k]].duplicate());
        k = k + 1;
    }
    assert(keys@ =~= Seq::new(s.len() as nat, |i: int| s@[i].created_at));
    assert(mask@ =~= Seq::new(s.len() as nat, |i: int| true));
    out
}

} // verus!
