//! The request pipeline: per-request orchestration of identity resolution,
//! post validation and persistence on the write path, and of the
//! internal-access guard and the store queries on the read paths.

use vstd::prelude::*;
use vstd::pervasive::unreached;
use vstd::string::StringExecFns;
use crate::api::{spec_status_title, ApiError, StatusResponse};
use crate::domain::{CreateEventRequest, Device, Event};
use crate::guard::{header_authorized, InternalAuth};
use crate::opt_view;
use crate::posts::PostsApi;
use crate::store::{
    devices_model, events_model, matching_events, store_after_create, upsert_device,
    EventRepository,
};
use crate::users::{FetchUserError, User, UsersApi};

verus! {

/// The identity a request resolved to, carried through the write path.
#[derive(Debug)]
pub struct RequestUser(pub User);

/// The decision of the identity-resolution step. `fetch` is `None` when the
/// request carried no `Authorization` header — a normal, anonymous outcome —
/// and otherwise the directory's answer for the presented credential: a
/// caller presenting a credential asserts identity, and a bad assertion is
/// rejected as unauthorized, never silently downgraded to anonymous. An
/// upstream failure proper becomes a server error.
pub fn resolve_request_user(fetch: Option<Result<Option<User>, FetchUserError>>) -> (r: Result<
    Option<RequestUser>,
    ApiError,
>)
    ensures
        match fetch {
            Option::None => r matches Ok(u) && u is None,
            Option::Some(Result::Ok(Option::Some(user))) => r matches Ok(Some(RequestUser(u)))
                && u == user,
            Option::Some(Result::Ok(Option::None)) => r matches Err(e) && e matches
                ApiError::Unauthorized(d) && d is None,
            Option::Some(Result::Err(FetchUserError::InvalidAuthorization)) => r matches Err(e)
                && e matches ApiError::Unauthorized(d) && d is None,
            Option::Some(Result::Err(FetchUserError::Unknown(d))) => r matches Err(e) && e matches
                ApiError::InternalServerError(d2) && d2 == d,
        },
{
    match fetch {
        Option::None => Result::Ok(Option::None),
        Option::Some(answer) => match answer {
            Result::Ok(Option::Some(user)) => Result::Ok(Option::Some(RequestUser(user))),
            Result::Ok(Option::None) => Result::Err(ApiError::Unauthorized(Option::None)),
            Result::Err(e) => Result::Err(ApiError::from(e)),
        },
    }
}

/// The identity the write path stores for a request: absent when no header
/// was presented, else whatever the directory resolves the credential to.
pub open spec fn pipeline_user<U: UsersApi>(users: &U, auth_header: Option<Seq<char>>) -> Option<
    Seq<char>,
> {
    match auth_header {
        Option::None => Option::None,
        Option::Some(c) => users.known_user(c),
    }
}

/// Whether the identity step lets a request through: no header, or a header
/// the directory resolves.
pub open spec fn identity_resolved<U: UsersApi>(users: &U, auth_header: Option<Seq<char>>) -> bool {
    match auth_header {
        Option::None => true,
        Option::Some(c) => users.known_user(c) is Some,
    }
}

/// The write path. Resolves identity when an `Authorization` header is
/// present, validates the post id, and only then persists the event (and its
/// device tuple, deduplicated); answers with a `201 Created` envelope.
///
/// Every rejection leaves the event log unchanged; rejections decided before
/// persistence (bad request, unauthorized) leave the whole store unchanged.
pub fn handle_create_event<R: EventRepository, U: UsersApi, P: PostsApi>(
    repo: &mut R,
    users: &U,
    posts: &P,
    auth_header: &Option<String>,
    event: CreateEventRequest,
) -> (r: Result<StatusResponse, ApiError>)
    requires
        old(repo).wf(),
        old(repo).model().events.len() < i64::MAX,
        old(repo).model().devices.len() < i64::MAX,
    ensures
        final(repo).wf(),
        r is Err ==> final(repo).model().events == old(repo).model().events,
        r is Err ==> (final(repo).model().devices == old(repo).model().devices || (event@.device
            matches Some(d) && final(repo).model().devices == upsert_device(
            old(repo).model().devices,
            d,
        ).0)),
        (r matches Err(e) && !(e matches ApiError::InternalServerError(_))) ==> final(repo).model()
            == old(repo).model(),
        r matches Err(e) ==> !(e matches ApiError::Conflict(_)),
        (r matches Err(e) && e matches ApiError::Unauthorized(_)) ==> auth_header is Some,
        (r matches Err(e) && e matches ApiError::BadRequest(_)) ==> (!posts.post_valid(
            event@.post_id,
        ) && identity_resolved(users, opt_view(*auth_header))),
        r matches Ok(resp) ==> ({
            &&& resp.status == 201
            &&& resp.detail is None
            &&& resp.title@ == spec_status_title(201)
            &&& posts.post_valid(event@.post_id)
            &&& identity_resolved(users, opt_view(*auth_header))
            &&& exists|ts: int|
                final(repo).model() == store_after_create(
                    old(repo).model(),
                    event@,
                    pipeline_user(users, opt_view(*auth_header)),
                    ts,
                )
        }),
        users.infallible() ==> ((r matches Err(e) && e matches ApiError::Unauthorized(_)) <==> !identity_resolved(
            users,
            opt_view(*auth_header),
        )),
        (users.infallible() && posts.infallible()) ==> ((r matches Err(e) && e matches
            ApiError::BadRequest(_)) <==> (identity_resolved(users, opt_view(*auth_header))
            && !posts.post_valid(event@.post_id))),
        (users.infallible() && posts.infallible() && old(repo).infallible()) ==> (r is Ok <==> (
        identity_resolved(users, opt_view(*auth_header)) && posts.post_valid(event@.post_id))),
{
    let user_id: Option<String> = match auth_header {
        Option::None => Option::None,
        Option::Some(credential) => {
            let fetched = users.fetch_user(credential.as_str());
            match resolve_request_user(Option::Some(fetched)) {
                Result::Ok(Option::Some(RequestUser(user))) => Option::Some(user.id),
                Result::Ok(Option::None) => unreached(),
                Result::Err(e) => {
                    return Result::Err(e);
                },
            }
        },
    };
    match posts.validate_post_id(event.post_id.as_str()) {
        Result::Ok(valid) => {
            if !valid {
                return Result::Err(
                    ApiError::BadRequest(Option::Some(String::from_str("Invalid post ID"))),
                );
            }
        },
        Result::Err(e) => {
            return Result::Err(ApiError::InternalServerError(e.detail));
        },
    }
    match repo.create_event(event, user_id) {
        Result::Ok(_id) => Result::Ok(StatusResponse::new(201)),
        Result::Err(e) => Result::Err(ApiError::InternalServerError(e.detail)),
    }
}

/// The read path for the event listing: the internal-access guard first —
/// a missing or mismatched token is rejected as unauthorized before any store
/// access, whatever the store holds — then the filtered query.
pub fn handle_get_events<R: EventRepository>(
    guard: &InternalAuth,
    internal_token: &Option<String>,
    repo: &R,
    user_id: &Option<String>,
    post_id: &Option<String>,
) -> (r: Result<Vec<Event>, ApiError>)
    requires
        repo.wf(),
    ensures
        !header_authorized(guard.token@, opt_view(*internal_token)) ==> (r matches Err(e) && e
            matches ApiError::Unauthorized(d) && d is None),
        header_authorized(guard.token@, opt_view(*internal_token)) ==> match r {
            Result::Ok(v) => events_model(v@) == matching_events(
                repo.model().events,
                opt_view(*user_id),
                opt_view(*post_id),
            ),
            Result::Err(e) => e matches ApiError::InternalServerError(_),
        },
        (header_authorized(guard.token@, opt_view(*internal_token)) && repo.infallible()) ==> r
            is Ok,
{
    if !guard.authorize(internal_token) {
        return Result::Err(ApiError::Unauthorized(Option::None));
    }
    match repo.find_events(user_id, post_id) {
        Result::Ok(v) => Result::Ok(v),
        Result::Err(e) => Result::Err(ApiError::InternalServerError(e.detail)),
    }
}

/// The read path for the device listing, gated exactly as the event listing.
pub fn handle_get_devices<R: EventRepository>(
    guard: &InternalAuth,
    internal_token: &Option<String>,
    repo: &R,
) -> (r: Result<Vec<Device>, ApiError>)
    requires
        repo.wf(),
    ensures
        !header_authorized(guard.token@, opt_view(*internal_token)) ==> (r matches Err(e) && e
            matches ApiError::Unauthorized(d) && d is None),
        header_authorized(guard.token@, opt_view(*internal_token)) ==> match r {
            Result::Ok(v) => devices_model(v@) == repo.model().devices,
            Result::Err(e) => e matches ApiError::InternalServerError(_),
        },
        (header_authorized(guard.token@, opt_view(*internal_token)) && repo.infallible()) ==> r
            is Ok,
{
    if !guard.authorize(internal_token) {
        return Result::Err(ApiError::Unauthorized(Option::None));
    }
    match repo.find_devices() {
        Result::Ok(v) => Result::Ok(v),
        Result::Err(e) => Result::Err(ApiError::InternalServerError(e.detail)),
    }
}

/// The root endpoint's status message.
pub fn hello_response() -> (r: StatusResponse)
    ensures
        r.status == 200,
        r.title@ == spec_status_title(200),
        opt_view(r.detail) == Option::Some("It works!"@),
{
    StatusResponse::with_detail(200, Option::Some(String::from_str("It works!")))
}

/// The fallback response for unknown routes.
pub fn not_found_response() -> (r: StatusResponse)
    ensures
        r.status == 404,
        r.title@ == spec_status_title(404),
        r.detail is None,
{
    StatusResponse::new(404)
}

} // verus!
