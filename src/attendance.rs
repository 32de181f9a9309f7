use vstd::prelude::*;
use vstd::string::*;
use crate::error::{InputFault, ServiceError};
use crate::models::{AttendanceDto, ClockRequest};
use crate::query::{parse_limit, requested_limit};
use crate::ranking::{newest_first, ranked};
use crate::stamp::{not_after, Stamp};

verus! {

/// What `str::trim` leaves of a text.
pub uninterp spec fn trimmed(text: Seq<char>) -> Seq<char>;

/// Relies on `str::trim`: the result depends on the text alone.
#[verifier::external_body]
fn trim_text(text: &str) -> (r: &str)
    ensures
        r@ == trimmed(text@),
{
    text.trim()
}

/// A snapshot of the stored attendance sessions, with the id the next one
/// will get.
pub struct AttendanceBook {
    pub records: Vec<AttendanceDto>,
    pub next_id: i32,
}

/// The book holds the same sessions and will hand out the same id.
pub open spec fn same_book(a: AttendanceBook, b: AttendanceBook) -> bool {
    a.records@ == b.records@ && a.next_id == b.next_id
}

/// A session that has not been clocked out.
pub open spec fn is_open(r: AttendanceDto) -> bool {
    r.clock_out_time.is_none()
}

/// An open session of this user.
pub open spec fn open_for(r: AttendanceDto, user: Seq<char>) -> bool {
    r.user_id@ == user && is_open(r)
}

/// The user has an open session.
pub open spec fn has_open(s: Seq<AttendanceDto>, user: Seq<char>) -> bool {
    exists|i: int| 0 <= i < s.len() && #[trigger] open_for(s[i], user)
}

/// No user has two open sessions.
pub open spec fn one_open_per_user(s: Seq<AttendanceDto>) -> bool {
    forall|i: int, j: int|
        0 <= i < s.len() && 0 <= j < s.len() && i != j && is_open(#[trigger] s[i]) && is_open(#[trigger] s[j])
            ==> s[i].user_id@ != s[j].user_id@
}

/// Clocking in a user whose id is already trimmed.
pub open spec fn clocked_in(
    before: AttendanceBook,
    after: AttendanceBook,
    user: Seq<char>,
    now: Stamp,
    r: Result<AttendanceDto, ServiceError>,
) -> bool {
    if user.len() == 0 {
        r == Err::<AttendanceDto, ServiceError>(ServiceError::InvalidInput(InputFault::UserId))
            && same_book(before, after)
    } else if has_open(before.records@, user) {
        r == Err::<AttendanceDto, ServiceError>(ServiceError::Conflict) && same_book(before, after)
    } else if before.next_id == i32::MAX {
        r == Err::<AttendanceDto, ServiceError>(ServiceError::StorageError) && same_book(before, after)
    } else {
        match r {
            Ok(rec) => {
                &&& rec.id == before.next_id
                &&& rec.user_id@ == user
                &&& rec.clock_in_time == now
                &&& rec.clock_out_time.is_none()
                &&& rec.created_at == Some(now)
                &&& rec.updated_at == Some(now)
                &&& after.records@ == before.records@.push(rec)
                &&& after.next_id == before.next_id + 1
            },
            Err(_) => false,
        }
    }
}

/// `i` is an open session of the user with no open session of theirs
/// clocked in later.
pub open spec fn latest_open(s: Seq<AttendanceDto>, user: Seq<char>, i: int) -> bool {
    &&& 0 <= i < s.len()
    &&& open_for(s[i], user)
    &&& forall|j: int|
        0 <= j < s.len() && #[trigger] open_for(s[j], user) ==> not_after(
            s[j].clock_in_time,
            s[i].clock_in_time,
        )
}

/// A session closed at `now`.
pub open spec fn closed(r: AttendanceDto, now: Stamp) -> AttendanceDto {
    AttendanceDto { clock_out_time: Some(now), updated_at: Some(now), ..r }
}

/// Clocking out a user whose id is already trimmed.
pub open spec fn clocked_out(
    before: AttendanceBook,
    after: AttendanceBook,
    user: Seq<char>,
    now: Stamp,
    r: Result<AttendanceDto, ServiceError>,
) -> bool {
    if user.len() == 0 {
        r == Err::<AttendanceDto, ServiceError>(ServiceError::InvalidInput(InputFault::UserId))
            && same_book(before, after)
    } else if !has_open(before.records@, user) {
        r == Err::<AttendanceDto, ServiceError>(ServiceError::NotFound) && same_book(before, after)
    } else {
        exists|i: int|
            #[trigger] latest_open(before.records@, user, i) && r == Ok::<AttendanceDto, ServiceError>(
                closed(before.records@[i], now),
            ) && after.records@ == before.records@.update(i, closed(before.records@[i], now))
                && after.next_id == before.next_id
    }
}

/// Opens a session for a user id that is already trimmed.
pub fn clock_in_user(book: &mut AttendanceBook, user: &str, now: Stamp) -> (r: Result<AttendanceDto, ServiceError>)
    ensures
        clocked_in(*old(book), *final(book), user@, now, r),
{
    if user.is_empty() {
        return Err(ServiceError::InvalidInput(InputFault::UserId));
    }
    let name = String::from_str(user);
    let mut i: usize = 0;
    while i < book.records.len()
        invariant
            i <= book.records.len(),
            name@ == user@,
            user@.len() > 0,
            same_book(*old(book), *book),
            forall|j: int|
                0 <= j < i ==> !#[trigger] open_for(book.records@[j], user@),
        decreases book.records.len() - i,
    {
        if book.records[i].user_id == name && book.records[i].clock_out_time.is_none() {
            assert(open_for(book.records@[i as int], user@));
            return Err(ServiceError::Conflict);
        }
        i = i + 1;
    }
    if book.next_id == i32::MAX {
        return Err(ServiceError::StorageError);
    }
    let rec = AttendanceDto {
        id: book.next_id,
        user_id: name,
        clock_in_time: now,
        clock_out_time: None,
        created_at: Some(now),
        updated_at: Some(now),
    };
    book.records.push(rec.duplicate());
    book.next_id = book.next_id + 1;
    Ok(rec)
}

/// Clocks a user in: the id is trimmed first.
pub fn clock_in(book: &mut AttendanceBook, req: &ClockRequest, now: Stamp) -> (r: Result<AttendanceDto, ServiceError>)
    ensures
        clocked_in(*old(book), *final(book), trimmed(req.user_id@), now, r),
{
    let user = trim_text(req.user_id.as_str());
    clock_in_user(book, user, now)
}

/// Closes the latest open session of a user id that is already trimmed.
pub fn clock_out_user(book: &mut AttendanceBook, user: &str, now: Stamp) -> (r: Result<AttendanceDto, ServiceError>)
    ensures
        clocked_out(*old(book), *final(book), user@, now, r),
{
    if user.is_empty() {
        return Err(ServiceError::InvalidInput(InputFault::UserId));
    }
    let name = String::from_str(user);
    let mut best: Option<usize> = None;
    let mut i: usize = 0;
    while i < book.records.len()
        invariant
            i <= book.records.len(),
            name@ == user@,
            user@.len() > 0,
            same_book(*old(book), *book),
            match best {
                Some(b) => (b as int) < book.records.len() && open_for(book.records@[b as int], user@) && forall|j: int|
                    0 <= j < i && #[trigger] open_for(book.records@[j], user@) ==> not_after(book.records@[j].clock_in_time, book.records@[b as int].clock_in_time),
                None => forall|j: int|
                    0 <= j < i ==> !#[trigger] open_for(book.records@[j], user@),
            },
        decreases book.records.len() - i,
    {
        if book.records[i].user_id == name && book.records[i].clock_out_time.is_none() {
            match best {
                Some(b) => {
                    if book.records[b].clock_in_time.is_before(&book.records[i].clock_in_time) {
                        best = Some(i);
                    }
                },
                None => {
                    best = Some(i);
                },
            }
        }
        i = i + 1;
    }
    match best {
        Some(b) => {
            let mut rec = book.records[b].duplicate();
            rec.clock_out_time = Some(now);
            rec.updated_at = Some(now);
            book.records.set(b, rec.duplicate());
            assert(latest_open(old(book).records@, user@, b as int));
            Ok(rec)
        },
        None => Err(ServiceError::NotFound),
    }
}

/// Clocks a user out: the id is trimmed first.
pub fn clock_out(book: &mut AttendanceBook, req: &ClockRequest, now: Stamp) -> (r: Result<AttendanceDto, ServiceError>)
    ensures
        clocked_out(*old(book), *final(book), trimmed(req.user_id@), now, r),
{
    let user = trim_text(req.user_id.as_str());
    clock_out_user(book, user, now)
}

/// The session belongs to the user the query names, or no user is named.
pub open spec fn wanted(r: AttendanceDto, user: Option<&str>) -> bool {
    match user {
        Some(u) => r.user_id@ == u@,
        None => true,
    }
}

/// The sessions a history query asks for: those of the named user, the
/// latest clock-in first, at most `limit` of them.
pub open spec fn history(s: Seq<AttendanceDto>, user: Option<&str>, limit: int, r: Seq<AttendanceDto>) -> bool {
    exists|idx: Seq<usize>|
        ranked(
            Seq::new(s.len(), |i: int| Some(s[i].clock_in_time)),
            Seq::new(s.len(), |i: int| wanted(s[i], user)),
            limit,
            idx,
        ) && r.len() == idx.len() && forall|k: int| 0 <= k < r.len() ==> #[trigger] r[k] == s[idx[k] as int]
}

/// Some stored session answers the query.
pub open spec fn any_wanted(s: Seq<AttendanceDto>, user: Option<&str>) -> bool {
    exists|i: int| 0 <= i < s.len() && wanted(#[trigger] s[i], user)
}

/// The latest sessions, of one user when one is named; an empty answer is
/// reported as `NotFound`.
pub fn get_history(book: &AttendanceBook, user_id: Option<&str>, limit: Option<&str>) -> (r: Result<
    Vec<AttendanceDto>,
    ServiceError,
>)
    ensures
        r is Err <==> (requested_limit(limit) == 0 || !any_wanted(book.records@, user_id)),
        match r {
            Ok(v) => history(book.records@, user_id, requested_limit(limit) as int, v@),
            Err(e) => e == ServiceError::NotFound,
        },
{
    let lim = parse_limit(limit);
    let s = &book.records;
    let name: Option<String> = match user_id {
        Some(u) => Some(String::from_str(u)),
        None => None,
    };
    let mut keys: Vec<Option<Stamp>> = Vec::new();
    let mut mask: Vec<bool> = Vec::new();
    let mut i: usize = 0;
    while i < s.len()
        invariant
            i <= s.len(),
            keys.len() == i,
            mask.len() == i,
            match user_id {
                Some(u) => name.is_some() && name.unwrap()@ == u@,
                None => name.is_none(),
            },
            forall|x: int| 0 <= x < i ==> keys@[x] == Some(#[trigger] s@[x].clock_in_time),
            forall|x: int| 0 <= x < i ==> #[trigger] mask@[x] == wanted(s@[x], user_id),
        decreases s.len() - i,
    {
        keys.push(Some(s[i].clock_in_time));
        let hit = match &name {
            Some(n) => s[i].user_id == *n,
            None => true,
        };
        mask.push(hit);
        i = i + 1;
    }
    let idx = newest_first(&keys, &mask, lim);
    assert forall|x: int| 0 <= x < idx.len() implies (idx@[x] as int) < s.len() && wanted(
        s@[idx@[x] as int],
        user_id,
    ) by {
        assert(mask@[idx@[x] as int]);
    }
    assert(keys@ =~= Seq::new(s.len() as nat, |i: int| Some(s@[i].clock_in_time)));
    assert(mask@ =~= Seq::new(s.len() as nat, |i: int| wanted(s@[i], user_id)));
    if idx.len() == 0 {
        if lim > 0 {
            assert forall|x: int| 0 <= x < s.len() implies !wanted(#[trigger] s@[x], user_id) by {
                if wanted(s@[x], user_id) {
                    assert(mask@[x]);
                    assert(idx@.contains(x as usize));
                }
            }
        }
        return Err(ServiceError::NotFound);
    }
    let mut out: Vec<AttendanceDto> = Vec::new();
    let mut k: usize = 0;
    while k < idx.len()
        invariant
            k <= idx.len(),
            forall|x: int| 0 <= x < idx.len() ==> (idx@[x] as int) < s.len(),
            out.len() == k,
            forall|x: int| 0 <= x < k ==> #[trigger] out@[x] == s@[idx@[x] as int],
        decreases idx.len() - k,
    {
        out.push(s[idx[k]].duplicate());
        k = k + 1;
    }
    assert(wanted(s@[idx@[0] as int], user_id));
    Ok(out)
}

} // verus!
