//! The reference queries that the POTA handlers build from the request:
//! the query-string parameters come in as a `GetParam`, and the handlers hand
//! a `FindRef` to the service layer.
//!
//! Coordinates are only carried from the request into the query, never
//! computed with, so their type is a parameter `C`; the parsed user id is a
//! parameter `U`, and the error its parser gives is a parameter `E`.

use vstd::prelude::*;

verus! {

/// The query-string parameters of the reference and activity endpoints.
#[derive(Debug, Clone, PartialEq)]
pub struct GetParam<C> {
    pub limit: Option<i32>,
    pub offset: Option<i32>,
    pub name: Option<String>,
    pub ref_id: Option<String>,
    pub user_id: Option<String>,
    pub min_area: Option<i32>,
    pub min_elev: Option<i32>,
    pub max_lat: Option<C>,
    pub min_lat: Option<C>,
    pub max_lon: Option<C>,
    pub min_lon: Option<C>,
    /// How many hours back the activity endpoints look.
    pub after: Option<i64>,
}

/// The award programme a query is about.
#[derive(Debug, Clone, Copy, PartialEq, Eq, Structural)]
pub enum Program {
    Pota,
    Sota,
}

/// A longitude/latitude box.
#[derive(Debug, Clone, PartialEq)]
pub struct BoundingBox<C> {
    pub min_lon: C,
    pub min_lat: C,
    pub max_lon: C,
    pub max_lat: C,
}

/// A query for references, as the service layer receives it.
#[derive(Debug, Clone, PartialEq)]
pub struct FindRef<C, U> {
    pub program: Program,
    pub limit: Option<i32>,
    pub offset: Option<i32>,
    pub name: Option<String>,
    pub ref_id: Option<String>,
    pub user_id: Option<U>,
    pub min_area: Option<i32>,
    pub bbox: Option<BoundingBox<C>>,
}

/// A park code, as a deletion names it.
#[derive(Debug, Clone, PartialEq)]
pub struct ParkCode(pub String);

/// A request to delete references.
#[derive(Debug, Clone, PartialEq)]
pub enum DeleteRef {
    Delete(ParkCode),
}

/// The POTA query with nothing restricted.
pub open spec fn spec_empty_pota_query<C, U>() -> FindRef<C, U> {
    FindRef {
        program: Program::Pota,
        limit: None,
        offset: None,
        name: None,
        ref_id: None,
        user_id: None,
        min_area: None,
        bbox: None,
    }
}

/// The bounding box of the request, present only when all four of its
/// corners are.
pub open spec fn spec_bbox<C>(param: GetParam<C>) -> Option<BoundingBox<C>> {
    if param.min_lon is Some && param.min_lat is Some && param.max_lon is Some
        && param.max_lat is Some {
        Some(
            BoundingBox {
                min_lon: param.min_lon->0,
                min_lat: param.min_lat->0,
                max_lon: param.max_lon->0,
                max_lat: param.max_lat->0,
            },
        )
    } else {
        None
    }
}

/// The search query that a reference-list request asks for, or the error of
/// the user id when one was given and did not parse.
///
/// When `min_area` is given, the query's minimum area is the request's
/// `min_elev`.
pub open spec fn spec_reference_search<C, U, E>(
    param: GetParam<C>,
    user_id: Option<Result<U, E>>,
) -> Result<FindRef<C, U>, E> {
    match user_id {
        Some(Err(e)) => Err(e),
        _ => Ok(
            FindRef {
                program: Program::Pota,
                limit: param.limit,
                offset: param.offset,
                name: param.name,
                ref_id: param.ref_id,
                user_id: match user_id {
                    Some(Ok(u)) => Some(u),
                    _ => None,
                },
                min_area: if param.min_area is Some {
                    param.min_elev
                } else {
                    None
                },
                bbox: spec_bbox(param),
            },
        ),
    }
}

/// The query for the one POTA reference with the given park code.
pub fn reference_query<C, U>(park_code: String) -> (q: FindRef<C, U>)
    ensures
        q == (FindRef::<C, U> { ref_id: Some(park_code), ..spec_empty_pota_query() }),
        q.program == Program::Pota && q.ref_id == Some(park_code),
        q.limit is None && q.offset is None && q.name is None && q.user_id is None
            && q.min_area is None && q.bbox is None,
{
    FindRef {
        program: Program::Pota,
        limit: None,
        offset: None,
        name: None,
        ref_id: Some(park_code),
        user_id: None,
        min_area: None,
        bbox: None,
    }
}

/// The query for one page of all POTA references: only the request's limit
/// and offset are taken over.
pub fn reference_page_query<C, U>(param: GetParam<C>) -> (q: FindRef<C, U>)
    ensures
        q == (FindRef::<C, U> {
            limit: param.limit,
            offset: param.offset,
            ..spec_empty_pota_query()
        }),
        q.program == Program::Pota && q.limit == param.limit && q.offset == param.offset,
        q.name is None && q.ref_id is None && q.user_id is None && q.min_area is None
            && q.bbox is None,
{
    FindRef {
        program: Program::Pota,
        limit: param.limit,
        offset: param.offset,
        name: None,
        ref_id: None,
        user_id: None,
        min_area: None,
        bbox: None,
    }
}

/// The search query of a reference-list request. `user_id` is the outcome of
/// parsing the request's user id, present exactly when the request has one.
///
/// A user id that does not parse is the error. A request with `min_area` but
/// without `min_elev` is left out: the query's minimum area is read from
/// `min_elev`, which must then be there (unless the user id already failed).
pub fn reference_search_query<C, U, E>(
    param: GetParam<C>,
    user_id: Option<Result<U, E>>,
) -> (r: Result<FindRef<C, U>, E>)
    requires
        user_id is Some == param.user_id is Some,
        param.min_area is Some && param.min_elev is None ==> user_id matches Some(Err(_)),
    ensures
        r == spec_reference_search(param, user_id),
        user_id matches Some(Err(e)) ==> r == Err::<FindRef<C, U>, E>(e),
        !(user_id matches Some(Err(_))) ==> r is Ok,
        r matches Ok(q) ==> search_carries_request(param, user_id, q),
{
    proof {
        lemma_search_carries_request(param, user_id);
    }
    let user = match user_id {
        Some(Err(e)) => {
            return Err(e);
        },
        Some(Ok(u)) => Some(u),
        None => None,
    };
    let GetParam {
        limit,
        offset,
        name,
        ref_id,
        user_id: _,
        min_area,
        min_elev,
        max_lat,
        min_lat,
        max_lon,
        min_lon,
        after: _,
    } = param;
    let min_area = match min_area {
        Some(_) => match min_elev {
            Some(elev) => Some(elev),
            None => None,
        },
        None => None,
    };
    let bbox = match (min_lon, min_lat, max_lon, max_lat) {
        (Some(a), Some(b), Some(c), Some(d)) => Some(
            BoundingBox { min_lon: a, min_lat: b, max_lon: c, max_lat: d },
        ),
        _ => None,
    };
    Ok(FindRef { program: Program::Pota, limit, offset, name, ref_id, user_id: user, min_area, bbox })
}

/// What a search query takes from its request, field by field: the
/// programme is POTA; limit, offset, name and park code are the request's,
/// each on its own; the user is the parsed one, and absent without a user id;
/// the minimum area is the request's `min_elev` when `min_area` is given and
/// absent otherwise; the box holds the four corners when all are given.
pub open spec fn search_carries_request<C, U, E>(
    param: GetParam<C>,
    user_id: Option<Result<U, E>>,
    q: FindRef<C, U>,
) -> bool {
    &&& q.program == Program::Pota
    &&& q.limit == param.limit
    &&& q.offset == param.offset
    &&& q.name == param.name
    &&& q.ref_id == param.ref_id
    &&& (user_id matches Some(Ok(u)) ==> q.user_id == Some(u))
    &&& (user_id is None ==> q.user_id is None)
    &&& (param.min_area is Some ==> q.min_area == param.min_elev)
    &&& (param.min_area is None ==> q.min_area is None)
    &&& (q.bbox is Some <==> (param.min_lon is Some && param.min_lat is Some
        && param.max_lon is Some && param.max_lat is Some))
    &&& (q.bbox matches Some(b) ==> param.min_lon == Some(b.min_lon) && param.min_lat == Some(
        b.min_lat,
    ) && param.max_lon == Some(b.max_lon) && param.max_lat == Some(b.max_lat))
}

/// A search whose user id is not an error succeeds, and its query carries
/// the request over unchanged: the name, the limit, the offset and the park
/// code independently of one another and of every other parameter, the
/// parsed user whatever else is given, the minimum area from `min_elev`, and
/// the box when all four corners are given.
pub proof fn lemma_search_carries_request<C, U, E>(
    param: GetParam<C>,
    user_id: Option<Result<U, E>>,
)
    ensures
        !(user_id matches Some(Err(_))) ==> spec_reference_search(param, user_id) is Ok,
        spec_reference_search(param, user_id) matches Ok(q) ==> search_carries_request(
            param,
            user_id,
            q,
        ),
{
}

/// A search keeps a bounding box exactly when the request gives all four of
/// its corners, and then keeps them unchanged.
pub proof fn lemma_search_bbox_all_or_nothing<C, U, E>(
    param: GetParam<C>,
    user_id: Option<Result<U, E>>,
)
    requires
        !(user_id matches Some(Err(_))),
    ensures
        spec_reference_search(param, user_id) matches Ok(q) && (q.bbox is Some <==> (
        param.min_lon is Some && param.min_lat is Some && param.max_lon is Some
            && param.max_lat is Some)),
        spec_reference_search(param, user_id) matches Ok(q) && (q.bbox matches Some(b) ==> (
        param.min_lon == Some(b.min_lon) && param.min_lat == Some(b.min_lat) && param.max_lon
            == Some(b.max_lon) && param.max_lat == Some(b.max_lat))),
{
}

/// A user id that does not parse decides a search, whatever else the
/// request holds; otherwise the search always succeeds.
pub proof fn lemma_search_fails_only_on_user_id<C, U, E>(
    param: GetParam<C>,
    user_id: Option<Result<U, E>>,
)
    ensures
        spec_reference_search(param, user_id) is Err <==> user_id matches Some(Err(_)),
        user_id matches Some(Err(e)) ==> spec_reference_search(param, user_id) == Err::<
            FindRef<C, U>,
            E,
        >(e),
{
}

/// The deletion request for the reference with the given park code.
pub fn delete_reference_request(park_code: String) -> (d: DeleteRef)
    ensures
        d == DeleteRef::Delete(ParkCode(park_code)),
{
    DeleteRef::Delete(ParkCode(park_code))
}

/// The POTA references of a search result, or none where the result has no
/// POTA part.
pub fn pota_results<T>(pota: Option<Vec<T>>) -> (v: Vec<T>)
    ensures
        v@ == match pota {
            Some(found) => found@,
            None => Seq::<T>::empty(),
        },
{
    match pota {
        Some(found) => found,
        None => Vec::new(),
    }
}

} // verus!
