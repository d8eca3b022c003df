//! Location requests: the update statement, the owner check and the answers
//! of the location handlers.

use vstd::prelude::*;
use serde_json::Value;
use vstd::string::StringExecFns;
use crate::auth::{get_jwt, grants, header_bytes, is_forbidden, member_roles, members, refuses};
use crate::jwt::Jwt;
use crate::models::{Location, Role};
use crate::response::{Body, Response, Status};
use crate::sql::{
    pg_query_args, pg_query_new, pg_query_push, pg_query_push_bind_json, pg_query_push_bind_text,
    pg_query_push_bind_uuid, pg_query_text, placeholder, BoundArg, PgQuery,
};

verus! {

/// The body of a request that stores a new location.
pub struct InsertRequest {
    pub title: String,
    pub description: Option<String>,
    pub geo_data: Value,
}

/// The body of a request that changes a location: each field that is
/// present is set.
pub struct PatchRequest {
    pub id: u128,
    pub title: Option<String>,
    pub description: Option<String>,
    pub geo_data: Option<Value>,
}

/// The row that a new location is stored as: its owner, title, description
/// and GeoJSON text.
pub struct LocationRow {
    pub user_id: u128,
    pub title: String,
    pub description: Option<String>,
    pub geo_data: String,
}

/// The compact JSON text that `serde_json` writes for what `v` holds.
pub uninterp spec fn json_value_text(v: Value) -> Seq<char>;

/// `serde_json::Value`'s `to_string()`: the compact JSON text of the value,
/// which depends on the value alone.
#[verifier::external_body]
fn json_to_string(v: &Value) -> (s: String)
    ensures
        s@ == json_value_text(*v),
{
    v.to_string()
}

/// The row that `body` is stored as for the holder of `jwt`: owned by the
/// user that the token names, with the request's title and description and
/// the text of its GeoJSON value.
pub fn insert_row(jwt: &Jwt, body: InsertRequest) -> (r: LocationRow)
    ensures
        r.user_id == jwt.user,
        r.title == body.title,
        r.description == body.description,
        r.geo_data@ == json_value_text(body.geo_data),
{
    let geo_data = json_to_string(&body.geo_data);
    LocationRow { user_id: jwt.user, title: body.title, description: body.description, geo_data }
}

/// A request that stores a new location: any user may make it, and the
/// location is stored as that user's. `Ok` gives the row to store; a
/// refused request is answered `403 Forbidden` with an empty body.
pub fn insert_new_from_json<F: Fn(String) -> Option<Jwt>>(
    header: Option<&[u8]>,
    jwt_from_token: F,
    body: InsertRequest,
) -> (r: Result<LocationRow, Response>)
    requires
        forall|t: String| jwt_from_token.requires((t,)),
    ensures
        match r {
            Ok(row) => (exists|j: Jwt| #[trigger] grants(header_bytes(header), jwt_from_token, members(), j)
                && row.user_id == j.user) && row.title == body.title && row.description == body.description
                && row.geo_data@ == json_value_text(body.geo_data),
            Err(resp) => is_forbidden(resp) && refuses(header_bytes(header), jwt_from_token, members()),
        },
{
    let jwt = match get_jwt(header, &member_roles(), jwt_from_token) {
        Ok(j) => j,
        Err(resp) => return Err(resp),
    };
    Ok(insert_row(&jwt, body))
}

/// `1` where `b` holds, else `0`.
pub open spec fn count(b: bool) -> nat {
    if b { 1 } else { 0 }
}

/// The assignments of the update statement for a request with the given
/// fields present, their placeholders numbered from `$1` on in that order.
pub open spec fn update_assignments(title: bool, description: bool, geo: bool) -> Seq<char> {
    let n_title = count(title);
    let n_description = count(description);
    let a_title = if title {
        "title = "@ + placeholder(1)
    } else {
        Seq::<char>::empty()
    };
    let a_description = if description {
        (if title { ", "@ } else { Seq::<char>::empty() }) + "description = "@ + placeholder(n_title + 1)
    } else {
        Seq::<char>::empty()
    };
    let a_geo = if geo {
        (if title || description { ", "@ } else { Seq::<char>::empty() })
            + "geo_data = ST_GeomFromGeoJSON("@ + placeholder(n_title + n_description + 1) + ")"@
    } else {
        Seq::<char>::empty()
    };
    a_title + a_description + a_geo
}

/// The update statement for `p`: the assignments of its present fields,
/// then the location's id as the last argument.
pub open spec fn update_statement(p: PatchRequest) -> Seq<char> {
    let t = p.title is Some;
    let d = p.description is Some;
    let g = p.geo_data is Some;
    "update locations set "@ + update_assignments(t, d, g) + " WHERE id = "@
        + placeholder(count(t) + count(d) + count(g) + 1)
}

/// The text argument of an optional field: one argument, or none.
pub open spec fn text_arg(v: Option<String>) -> Seq<BoundArg> {
    match v {
        Some(s) => seq![BoundArg::Text(s@)],
        None => Seq::<BoundArg>::empty(),
    }
}

/// The JSON argument of an optional field: one argument, or none.
pub open spec fn json_arg(v: Option<Value>) -> Seq<BoundArg> {
    match v {
        Some(j) => seq![BoundArg::Json(j)],
        None => Seq::<BoundArg>::empty(),
    }
}

/// The arguments of the update statement for `p`, in placeholder order.
pub open spec fn update_arguments(p: PatchRequest) -> Seq<BoundArg> {
    text_arg(p.title) + text_arg(p.description) + json_arg(p.geo_data) + seq![BoundArg::Uuid(p.id)]
}

/// Whether `args` binds each present field of `p` to the placeholder that
/// its assignment uses: the title to `$1`, the description to the next
/// number, the GeoJSON geometry to the one after, and the location's id last.
pub open spec fn binds_patch_fields(args: Seq<BoundArg>, p: PatchRequest) -> bool {
    let nt = count(p.title is Some) as int;
    let nd = count(p.description is Some) as int;
    let ng = count(p.geo_data is Some) as int;
    &&& args.len() == nt + nd + ng + 1
    &&& (p.title matches Some(t) ==> args[0] == BoundArg::Text(t@))
    &&& (p.description matches Some(d) ==> args[nt] == BoundArg::Text(d@))
    &&& (p.geo_data matches Some(g) ==> args[nt + nd] == BoundArg::Json(g))
    &&& args[nt + nd + ng] == BoundArg::Uuid(p.id)
}

/// The arguments of an update bind each field's own value: where the title
/// is present it is the first argument (`$1`, the placeholder of
/// `title = `), the description comes next (the placeholder of
/// `description = `), then the GeoJSON value, and the id is last.
pub proof fn lemma_update_arguments_bind_their_fields(p: PatchRequest)
    ensures
        binds_patch_fields(update_arguments(p), p),
{
    let a = update_arguments(p);
    let nt = count(p.title is Some) as int;
    let nd = count(p.description is Some) as int;
    assert(text_arg(p.title).len() == nt);
    assert(text_arg(p.description).len() == nd);
    if let Some(t) = p.title {
        assert(a[0] == text_arg(p.title)[0]);
    }
    if let Some(d) = p.description {
        assert(a[nt] == (text_arg(p.title) + text_arg(p.description))[nt]);
    }
}

/// Whether `p` names no field to change.
pub open spec fn patch_is_empty(p: PatchRequest) -> bool {
    p.title is None && p.description is None && p.geo_data is None
}

/// The statement that applies `body`: `None` where it names no field to
/// change, else the update of its present fields (title, description, then
/// GeoJSON geometry, separated by commas) of the location with its id.
pub fn update_query(body: PatchRequest) -> (r: Option<PgQuery>)
    ensures
        r is None <==> patch_is_empty(body),
        r matches Some(q) ==> pg_query_text(q) == update_statement(body)
            && pg_query_args(q) == update_arguments(body) && binds_patch_fields(pg_query_args(q), body),
{
    let ghost t = body.title is Some;
    let ghost d = body.description is Some;
    let ghost g = body.geo_data is Some;
    let ghost args0 = update_arguments(body);
    let PatchRequest { id, title, description, geo_data } = body;
    let mut q = pg_query_new("update locations set ");
    let mut first = true;
    match title {
        Some(v) => {
            if !first {
                pg_query_push(&mut q, ", ");
            }
            pg_query_push(&mut q, "title = ");
            pg_query_push_bind_text(&mut q, v);
            first = false;
        },
        None => {},
    }
    assert(pg_query_text(q) =~= "update locations set "@ + update_assignments(t, false, false));
    assert(pg_query_args(q).len() == count(t));
    match description {
        Some(v) => {
            if !first {
                pg_query_push(&mut q, ", ");
            }
            pg_query_push(&mut q, "description = ");
            pg_query_push_bind_text(&mut q, v);
            first = false;
        },
        None => {},
    }
    assert(pg_query_text(q) =~= "update locations set "@ + update_assignments(t, d, false));
    assert(pg_query_args(q).len() == count(t) + count(d));
    match geo_data {
        Some(v) => {
            if !first {
                pg_query_push(&mut q, ", ");
            }
            pg_query_push(&mut q, "geo_data = ST_GeomFromGeoJSON(");
            pg_query_push_bind_json(&mut q, v);
            pg_query_push(&mut q, ")");
            first = false;
        },
        None => {},
    }
    assert(pg_query_text(q) =~= "update locations set "@ + update_assignments(t, d, g));
    assert(pg_query_args(q).len() == count(t) + count(d) + count(g));
    if first {
        return None;
    }
    pg_query_push(&mut q, " WHERE id = ");
    pg_query_push_bind_uuid(&mut q, id);
    assert(pg_query_args(q) =~= args0);
    proof {
        lemma_update_arguments_bind_their_fields(body);
    }
    Some(q)
}

/// The answer to a listing of locations: the locations, or `500` with an
/// empty body where the database failed.
pub fn locations_reply(found: Result<Vec<Location>, ()>) -> (r: Response)
    ensures
        match found {
            Ok(ls) => r.status == Status::Success && r.body == Body::Locations(ls),
            Err(_) => r.status == Status::InternalServerError && r.body is Empty,
        },
{
    match found {
        Ok(ls) => Response { status: Status::Success, body: Body::Locations(ls) },
        Err(_) => Response::empty(Status::InternalServerError),
    }
}

/// Whether `r` refuses a user the locations of another: `403` with
/// `{"success": false, "msg": "token dosnt match user"}`.
pub open spec fn is_owner_refusal(r: Response) -> bool {
    &&& r.status == Status::Forbidden
    &&& match r.body {
        Body::Outcome { success, msg } => !success && (msg matches Some(m) && m@
            == "token dosnt match user"@),
        _ => false,
    }
}

/// The check before a user's locations are listed: only the user that the
/// token names may list them.
pub fn check_location_owner(id: u128, jwt: &Jwt) -> (r: Option<Response>)
    ensures
        r is None <==> id == jwt.user,
        r matches Some(resp) ==> is_owner_refusal(resp),
{
    if id != jwt.user {
        Some(Response {
            status: Status::Forbidden,
            body: Body::Outcome {
                success: false,
                msg: Some(String::from_str("token dosnt match user")),
            },
        })
    } else {
        None
    }
}

/// The answer to storing a location: `200` with an empty body, or `500`
/// with an empty body where the database failed.
pub fn insert_reply(stored: Result<u64, ()>) -> (r: Response)
    ensures
        r.body is Empty,
        r.status == (if stored is Ok { Status::Success } else { Status::InternalServerError }),
{
    match stored {
        Ok(_) => Response::empty(Status::Success),
        Err(_) => Response::empty(Status::InternalServerError),
    }
}

/// The answer to a change that names no field:
/// `400` with `{"error": "No fields to update"}`.
pub fn no_fields_reply() -> (r: Response)
    ensures
        r.status == Status::BadRequest,
        r.body matches Body::Error(e) && e@ == "No fields to update"@,
{
    Response { status: Status::BadRequest, body: Body::Error(String::from_str("No fields to update")) }
}

/// The answer to a change, by the number of rows that it changed: none is
/// `400` with `{"success": false}`, some is `200` with `{"success": true}`,
/// and a database error is `500` with `{"error": ..}` holding its message.
pub fn update_reply(changed: Result<u64, String>) -> (r: Response)
    ensures
        match changed {
            Ok(n) => if n == 0 {
                r.status == Status::BadRequest && r.body == (Body::Outcome { success: false, msg: None })
            } else {
                r.status == Status::Success && r.body == (Body::Outcome { success: true, msg: None })
            },
            Err(e) => r.status == Status::InternalServerError && r.body == Body::Error(e),
        },
{
    match changed {
        Ok(n) => {
            if n == 0 {
                Response { status: Status::BadRequest, body: Body::Outcome { success: false, msg: None } }
            } else {
                Response { status: Status::Success, body: Body::Outcome { success: true, msg: None } }
            }
        },
        Err(e) => Response { status: Status::InternalServerError, body: Body::Error(e) },
    }
}

/// The answer to a deletion: `200` with an empty body however many rows
/// went, or `500` with an empty body where the database failed.
pub fn delete_reply(deleted: Result<u64, ()>) -> (r: Response)
    ensures
        r.body is Empty,
        r.status == (if deleted is Ok { Status::Success } else { Status::InternalServerError }),
{
    match deleted {
        Ok(_) => Response::empty(Status::Success),
        Err(_) => Response::empty(Status::InternalServerError),
    }
}

/// The first step of the check that a user may change a location: an
/// administrator may change any (`Decided(true)`); for a user, the location
/// stored under the id that its token names is looked up (`Fetch`). The
/// location named by the request is not consulted.
pub enum MatchStep {
    Decided(bool),
    Fetch(u128),
}

/// The first step of the check that the holder of `jwt` may change the
/// location `location_id`.
pub fn is_user_matching_start(jwt: &Jwt, location_id: u128) -> (r: MatchStep)
    ensures
        jwt.role == Role::USER ==> r == MatchStep::Fetch(jwt.user),
        jwt.role != Role::USER ==> r == MatchStep::Decided(true),
{
    if jwt.role == Role::USER {
        MatchStep::Fetch(jwt.user)
    } else {
        MatchStep::Decided(true)
    }
}

/// Whether a user passes the check once its location was looked up
/// (`None`: none was found, or the lookup failed): only where the location
/// is owned by that user.
pub open spec fn owns(jwt: Jwt, fetched: Option<Location>) -> bool {
    fetched matches Some(l) && l.user_id == Some(jwt.user)
}

/// The last step of the check, for a user whose location was looked up.
pub fn is_user_matching_finish(jwt: &Jwt, fetched: Option<Location>) -> (r: bool)
    ensures
        r == owns(*jwt, fetched),
{
    match fetched {
        Some(location) => match location.user_id {
            Some(user_id) => user_id == jwt.user,
            None => false,
        },
        None => false,
    }
}

/// In the update statement of a request that names a field, the location's
/// id is the last argument, and its placeholder is numbered by the count of
/// the arguments.
pub proof fn lemma_update_id_is_last_argument(p: PatchRequest)
    requires
        !patch_is_empty(p),
    ensures
        update_arguments(p).len() == count(p.title is Some) + count(p.description is Some) + count(
            p.geo_data is Some,
        ) + 1,
        update_arguments(p).last() == BoundArg::Uuid(p.id),
        update_statement(p) == "update locations set "@ + update_assignments(
            p.title is Some,
            p.description is Some,
            p.geo_data is Some,
        ) + " WHERE id = "@ + placeholder(update_arguments(p).len()),
{
}

/// Whether `r` answers a change that names no field:
/// `400` with `{"error": "No fields to update"}`.
pub open spec fn is_no_fields_reply(r: Response) -> bool {
    r.status == Status::BadRequest && (r.body matches Body::Error(e) && e@ == "No fields to update"@)
}

/// Whether `q` is the update statement of `body`, which names a field.
pub open spec fn executes_update(q: PgQuery, body: PatchRequest) -> bool {
    &&& !patch_is_empty(body)
    &&& pg_query_text(q) == update_statement(body)
    &&& pg_query_args(q) == update_arguments(body)
    &&& binds_patch_fields(pg_query_args(q), body)
}

/// A change that waits for the lookup of its holder's location.
pub struct PendingUpdate {
    pub jwt: Jwt,
    pub body: PatchRequest,
}

/// What a change asks for next: an answer, the lookup of the location
/// stored under an id (then `update_from_json_resume`), or running a
/// statement (then `update_reply` with the rows it changed).
pub enum UpdateStep {
    Reply(Response),
    LookUp(u128, PendingUpdate),
    Execute(PgQuery),
}

fn update_after_check(body: PatchRequest) -> (r: UpdateStep)
    ensures
        match r {
            UpdateStep::Reply(resp) => patch_is_empty(body) && is_no_fields_reply(resp),
            UpdateStep::LookUp(_, _) => false,
            UpdateStep::Execute(q) => executes_update(q, body),
        },
{
    match update_query(body) {
        Some(q) => UpdateStep::Execute(q),
        None => UpdateStep::Reply(no_fields_reply()),
    }
}

/// The first step of a request that changes a location: any user may make
/// it; an administrator's change runs at once, a user's waits for the
/// lookup of the location stored under its own id.
pub fn update_from_json<F: Fn(String) -> Option<Jwt>>(
    header: Option<&[u8]>,
    jwt_from_token: F,
    body: PatchRequest,
) -> (r: UpdateStep)
    requires
        forall|t: String| jwt_from_token.requires((t,)),
    ensures
        match r {
            UpdateStep::Reply(resp) => (is_forbidden(resp) && refuses(header_bytes(header), jwt_from_token, members()))
                || ((exists|j: Jwt| #[trigger] grants(header_bytes(header), jwt_from_token, members(), j)
                && j.role != Role::USER) && patch_is_empty(body) && is_no_fields_reply(resp)),
            UpdateStep::LookUp(id, p) => grants(header_bytes(header), jwt_from_token, members(), p.jwt)
                && p.jwt.role == Role::USER && id == p.jwt.user && p.body == body,
            UpdateStep::Execute(q) => (exists|j: Jwt| #[trigger] grants(header_bytes(header), jwt_from_token, members(), j)
                && j.role != Role::USER) && executes_update(q, body),
        },
{
    let jwt = match get_jwt(header, &member_roles(), jwt_from_token) {
        Ok(j) => j,
        Err(resp) => return UpdateStep::Reply(resp),
    };
    let location_id = body.id;
    match is_user_matching_start(&jwt, location_id) {
        MatchStep::Fetch(id) => UpdateStep::LookUp(id, PendingUpdate { jwt, body }),
        MatchStep::Decided(allowed) => {
            assert(allowed);
            update_after_check(body)
        },
    }
}

/// The second step of a user's change, once the location stored under its
/// id was looked up: the change runs only where that location is the
/// user's own, else the answer is `403 Forbidden` with an empty body.
pub fn update_from_json_resume(pending: PendingUpdate, fetched: Option<Location>) -> (r: UpdateStep)
    ensures
        match r {
            UpdateStep::Reply(resp) => (!owns(pending.jwt, fetched) && is_forbidden(resp)) || (owns(
                pending.jwt,
                fetched,
            ) && patch_is_empty(pending.body) && is_no_fields_reply(resp)),
            UpdateStep::LookUp(_, _) => false,
            UpdateStep::Execute(q) => owns(pending.jwt, fetched) && executes_update(q, pending.body),
        },
{
    let PendingUpdate { jwt, body } = pending;
    if !is_user_matching_finish(&jwt, fetched) {
        return UpdateStep::Reply(Response::empty(Status::Forbidden));
    }
    update_after_check(body)
}

/// A deletion that waits for the lookup of its holder's location.
pub struct PendingDelete {
    pub jwt: Jwt,
    pub id: u128,
}

/// What a deletion asks for next: an answer, the lookup of the location
/// stored under an id (then `delete_by_id_resume`), or deleting the location
/// with the given id (then `delete_reply`).
pub enum DeleteStep {
    Reply(Response),
    LookUp(u128, PendingDelete),
    Execute(u128),
}

/// The first step of a request that deletes the location `id`: any user may
/// make it; an administrator's deletion runs at once, a user's waits for the
/// lookup of the location stored under its own id.
pub fn delete_by_id<F: Fn(String) -> Option<Jwt>>(
    header: Option<&[u8]>,
    jwt_from_token: F,
    id: u128,
) -> (r: DeleteStep)
    requires
        forall|t: String| jwt_from_token.requires((t,)),
    ensures
        match r {
            DeleteStep::Reply(resp) => is_forbidden(resp) && refuses(header_bytes(header), jwt_from_token, members()),
            DeleteStep::LookUp(k, p) => grants(header_bytes(header), jwt_from_token, members(), p.jwt)
                && p.jwt.role == Role::USER && k == p.jwt.user && p.id == id,
            DeleteStep::Execute(x) => x == id && exists|j: Jwt| #[trigger] grants(header_bytes(header), jwt_from_token, members(), j)
                && j.role != Role::USER,
        },
{
    let jwt = match get_jwt(header, &member_roles(), jwt_from_token) {
        Ok(j) => j,
        Err(resp) => return DeleteStep::Reply(resp),
    };
    match is_user_matching_start(&jwt, id) {
        MatchStep::Fetch(k) => DeleteStep::LookUp(k, PendingDelete { jwt, id }),
        MatchStep::Decided(allowed) => {
            assert(allowed);
            DeleteStep::Execute(id)
        },
    }
}

/// The second step of a user's deletion, once the location stored under its
/// id was looked up: the deletion runs only where that location is the
/// user's own, else the answer is `403 Forbidden` with an empty body.
pub fn delete_by_id_resume(pending: PendingDelete, fetched: Option<Location>) -> (r: DeleteStep)
    ensures
        match r {
            DeleteStep::Reply(resp) => !owns(pending.jwt, fetched) && is_forbidden(resp),
            DeleteStep::LookUp(_, _) => false,
            DeleteStep::Execute(x) => owns(pending.jwt, fetched) && x == pending.id,
        },
{
    if is_user_matching_finish(&pending.jwt, fetched) {
        DeleteStep::Execute(pending.id)
    } else {
        DeleteStep::Reply(Response::empty(Status::Forbidden))
    }
}

/// A request for the locations of the user `id`: any user may make it, for
/// its own id only. `Ok` gives the user whose locations are listed.
pub fn get_locations_by_id<F: Fn(String) -> Option<Jwt>>(
    header: Option<&[u8]>,
    jwt_from_token: F,
    id: u128,
) -> (r: Result<u128, Response>)
    requires
        forall|t: String| jwt_from_token.requires((t,)),
    ensures
        match r {
            Ok(x) => x == id && exists|j: Jwt| #[trigger] grants(header_bytes(header), jwt_from_token, members(), j)
                && j.user == id,
            Err(resp) => (is_forbidden(resp) && refuses(header_bytes(header), jwt_from_token, members()))
                || ((exists|j: Jwt| #[trigger] grants(header_bytes(header), jwt_from_token, members(), j)
                && j.user != id) && is_owner_refusal(resp)),
        },
{
    let jwt = match get_jwt(header, &member_roles(), jwt_from_token) {
        Ok(j) => j,
        Err(resp) => return Err(resp),
    };
    match check_location_owner(id, &jwt) {
        Some(refusal) => Err(refusal),
        None => Ok(id),
    }
}

} // verus!
