use vstd::prelude::*;
use crate::attendance::{clocked_in, clocked_out, has_open, is_open, latest_open, one_open_per_user, open_for, AttendanceBook, closed};
use crate::banners::{changed_by, creation, deletion, first_with_id, has_id, lookup, other_id, patched, BannerBoard, BannerPatch};
use crate::error::ServiceError;
use crate::models::{AttendanceDto, BannerDto};
use crate::ranking::key_le;
use crate::stamp::{precedes, Stamp};
use crate::visibility::{in_window, selects};

verus! {

/// Once a user has clocked in, clocking the same user in again before any
/// clock-out fails with `Conflict`.
pub proof fn law_second_clock_in_conflicts(
    b0: AttendanceBook,
    b1: AttendanceBook,
    b2: AttendanceBook,
    user: Seq<char>,
    t1: Stamp,
    t2: Stamp,
    r1: Result<AttendanceDto, ServiceError>,
    r2: Result<AttendanceDto, ServiceError>,
)
    requires
        clocked_in(b0, b1, user, t1, r1),
        r1 is Ok,
        clocked_in(b1, b2, user, t2, r2),
    ensures
        r2 == Err::<AttendanceDto, ServiceError>(ServiceError::Conflict),
{
    let n = b0.records@.len() as int;
    assert(open_for(b1.records@[n], user));
}

/// Clocking in, out and in again succeeds all three times for a user with
/// no open session, while ids remain.
pub proof fn law_session_reopens(
    b0: AttendanceBook,
    b1: AttendanceBook,
    b2: AttendanceBook,
    b3: AttendanceBook,
    user: Seq<char>,
    t1: Stamp,
    t2: Stamp,
    t3: Stamp,
    r1: Result<AttendanceDto, ServiceError>,
    r2: Result<AttendanceDto, ServiceError>,
    r3: Result<AttendanceDto, ServiceError>,
)
    requires
        user.len() > 0,
        !has_open(b0.records@, user),
        b0.next_id < i32::MAX - 1,
        clocked_in(b0, b1, user, t1, r1),
        clocked_out(b1, b2, user, t2, r2),
        clocked_in(b2, b3, user, t3, r3),
    ensures
        r1 is Ok,
        r2 is Ok,
        r3 is Ok,
{
    let n = b0.records@.len() as int;
    assert(open_for(b1.records@[n], user));
    let i = choose|i: int| #[trigger] latest_open(b1.records@, user, i) && r2 == Ok::<AttendanceDto, ServiceError>(
        closed(b1.records@[i], t2),
    ) && b2.records@ == b1.records@.update(i, closed(b1.records@[i], t2)) && b2.next_id == b1.next_id;
    assert(i == n) by {
        if i < n {
            assert(b1.records@[i] == b0.records@[i]);
            assert(open_for(b0.records@[i], user));
        }
    }
    assert forall|j: int| 0 <= j < b2.records@.len() implies !#[trigger] open_for(b2.records@[j], user) by {
        if j < n {
            assert(b2.records@[j] == b0.records@[j]);
        }
    }
}

/// Clocking in and out keeps every user at no more than one open session.
pub proof fn law_one_open_session_kept(
    b0: AttendanceBook,
    b1: AttendanceBook,
    user: Seq<char>,
    now: Stamp,
    r: Result<AttendanceDto, ServiceError>,
    clocking_in: bool,
)
    requires
        one_open_per_user(b0.records@),
        clocking_in ==> clocked_in(b0, b1, user, now, r),
        !clocking_in ==> clocked_out(b0, b1, user, now, r),
    ensures
        one_open_per_user(b1.records@),
{
    let s0 = b0.records@;
    let s1 = b1.records@;
    if clocking_in {
        if r is Ok {
            let n = s0.len() as int;
            assert forall|i: int, j: int|
                0 <= i < s1.len() && 0 <= j < s1.len() && i != j && is_open(#[trigger] s1[i]) && is_open(
                    #[trigger] s1[j],
                ) implies s1[i].user_id@ != s1[j].user_id@ by {
                if i == n {
                    assert(!open_for(s0[j], user));
                } else if j == n {
                    assert(!open_for(s0[i], user));
                } else {
                    assert(s1[i] == s0[i] && s1[j] == s0[j]);
                }
            }
        }
    } else {
        if r is Ok {
            let k = choose|k: int| #[trigger] latest_open(s0, user, k) && r == Ok::<AttendanceDto, ServiceError>(
                closed(s0[k], now),
            ) && s1 == s0.update(k, closed(s0[k], now)) && b1.next_id == b0.next_id;
            assert forall|i: int, j: int|
                0 <= i < s1.len() && 0 <= j < s1.len() && i != j && is_open(#[trigger] s1[i]) && is_open(
                    #[trigger] s1[j],
                ) implies s1[i].user_id@ != s1[j].user_id@ by {
                assert(i != k && j != k);
                assert(s1[i] == s0[i] && s1[j] == s0[j]);
            }
        }
    }
}

/// Every stored banner starts strictly before it ends.
pub open spec fn dates_in_order(s: Seq<BannerDto>) -> bool {
    forall|i: int| 0 <= i < s.len() ==> precedes(#[trigger] s[i].start_date, s[i].end_date)
}

/// Creating a banner keeps every stored banner's start before its end.
pub proof fn law_creation_keeps_dates_in_order(
    b0: BannerBoard,
    b1: BannerBoard,
    title: Option<String>,
    content: String,
    start: Option<Stamp>,
    end: Option<Stamp>,
    now: Stamp,
    r: Result<BannerDto, ServiceError>,
)
    requires
        dates_in_order(b0.banners@),
        creation(b0, b1, title, content, start, end, now, r),
    ensures
        dates_in_order(b1.banners@),
{
    assert forall|i: int| 0 <= i < b1.banners@.len() implies precedes(
        #[trigger] b1.banners@[i].start_date,
        b1.banners@[i].end_date,
    ) by {
        if i < b0.banners@.len() {
            assert(b1.banners@[i] == b0.banners@[i]);
        }
    }
}

/// Patching a banner keeps every stored banner's start before its end.
pub proof fn law_patch_keeps_dates_in_order(
    b0: BannerBoard,
    b1: BannerBoard,
    id: i32,
    patch: BannerPatch,
    now: Stamp,
    r: Result<BannerDto, ServiceError>,
)
    requires
        dates_in_order(b0.banners@),
        changed_by(b0, b1, id, |b: BannerDto| patched(b, patch, now), r),
    ensures
        dates_in_order(b1.banners@),
{
    if has_id(b0.banners@, id) {
        let k = choose|k: int| 0 <= k < b0.banners@.len() && #[trigger] b0.banners@[k].id == id;
        let f = lemma_first_with_id_exists(b0.banners@, id, k);
        assert(first_with_id(b0.banners@, id, f));
        assert forall|i: int| 0 <= i < b1.banners@.len() implies precedes(
            #[trigger] b1.banners@[i].start_date,
            b1.banners@[i].end_date,
        ) by {
            if r is Ok {
                if i != f {
                    assert(b1.banners@[i] == b0.banners@[i]);
                } else {
                    assert(precedes(b0.banners@[f].start_date, b0.banners@[f].end_date));
                }
            }
        }
    }
}

/// A banner with this id at `k` means some position is the first with it.
proof fn lemma_first_with_id_exists(s: Seq<BannerDto>, id: i32, k: int) -> (f: int)
    requires
        0 <= k < s.len(),
        s[k].id == id,
    ensures
        first_with_id(s, id, f),
    decreases k,
{
    if exists|j: int| 0 <= j < k && #[trigger] s[j].id == id {
        let j = choose|j: int| 0 <= j < k && #[trigger] s[j].id == id;
        lemma_first_with_id_exists(s, id, j)
    } else {
        k
    }
}

/// After a banner is deleted, looking its id up fails with `NotFound`.
pub proof fn law_deleted_banner_is_gone(
    b0: BannerBoard,
    b1: BannerBoard,
    id: i32,
    r: Result<(), ServiceError>,
    found: Result<BannerDto, ServiceError>,
)
    requires
        deletion(b0, b1, id, r),
        lookup(b1.banners@, id, found),
    ensures
        has_id(b0.banners@, id) <==> r is Ok,
        found == Err::<BannerDto, ServiceError>(ServiceError::NotFound),
{
    if has_id(b0.banners@, id) {
        let kept = b0.banners@.filter(other_id(id));
        assert forall|k: int| 0 <= k < kept.len() implies #[trigger] kept[k].id != id by {
            b0.banners@.lemma_filter_pred(other_id(id), k);
        }
    }
}

/// Of two banners in their window, one that ends sooner, or that ends at
/// the same moment and was created later, is never passed over for the other.
pub proof fn law_urgent_banner_preferred(s: Seq<BannerDto>, now: Stamp, i: int, j: int, r: BannerDto)
    requires
        0 <= i < s.len(),
        0 <= j < s.len(),
        in_window(s[i], now),
        in_window(s[j], now),
        precedes(s[i].end_date, s[j].end_date) || (s[i].end_date == s[j].end_date && !key_le(
            s[i].created_at,
            s[j].created_at,
        )),
        selects(s, now, r),
    ensures
        r != s[j],
{
    assert(in_window(s[i], now));
}

} // verus!
