//! The request handlers, as pure decisions.
//!
//! Each handler turns its typed parameters — and, on protected routes,
//! the principal of the request context — into either a resource-service
//! call or an error; a second function per endpoint maps the service's
//! reply to an HTTP status and body. A handler on a protected route that
//! finds no principal in its context answers as unauthorized instead of
//! panicking, although dispatch makes that unreachable.

use vstd::prelude::*;

use crate::auth::{Principal, RequestContext};
use crate::dto::{
    Body, HttpReply, SysResourceChangeLink, SysResourceCreateRequest, SysResourceList,
    SysResourceResponse, UploadResult,
};
use crate::error::ApiError;
use crate::pagination::{page_or_default, page_size_or_default, spec_page, spec_page_size};

verus! {

/// One call into the resource service, with every argument this layer
/// derived for it.
pub enum ServiceCall {
    DeleteImage { image_uuid: String, requester_id: String },
    GetDetailByUuid { resource_uuid: String, requester_id: String, role: Option<u32> },
    ListByCategoryAndLanguage { category: String, language: String, page: u64, page_size: u64 },
    ListByCategory { category: String, page: u64, page_size: u64 },
    ListByLanguage { language: String, page: u64, page_size: u64 },
    ListAll { page: u64, page_size: u64 },
    ChangeDownloadLink { payload: SysResourceChangeLink },
    CreateResource { payload: SysResourceCreateRequest, owner_id: String },
    SaveImageMetadata { pairs: Vec<UploadResult> },
}

/// The decision of the image-deletion handler: unauthorized without a
/// principal, else delete on behalf of that principal.
pub open spec fn spec_delete_image(principal: Option<Principal>, image_uuid: String) -> Result<
    ServiceCall,
    ApiError,
> {
    match principal {
        Option::None => Result::Err(ApiError::Auth),
        Option::Some(p) => Result::Ok(
            ServiceCall::DeleteImage { image_uuid, requester_id: p.user_id },
        ),
    }
}

/// Decides the image deletion, as `spec_delete_image` describes.
pub fn delete_image(ctx: &RequestContext, image_uuid: String) -> (r: Result<ServiceCall, ApiError>)
    ensures
        r == spec_delete_image(ctx.principal, image_uuid),
{
    match &ctx.principal {
        None => Err(ApiError::Auth),
        Some(p) => Ok(
            ServiceCall::DeleteImage { image_uuid, requester_id: p.user_id.clone() },
        ),
    }
}

/// The decision of the resource-detail handler: unauthorized without a
/// principal, else fetch the detail for that principal and its role.
pub open spec fn spec_get_resource_detail_by_uuid(
    principal: Option<Principal>,
    resource_uuid: String,
) -> Result<ServiceCall, ApiError> {
    match principal {
        Option::None => Result::Err(ApiError::Auth),
        Option::Some(p) => Result::Ok(
            ServiceCall::GetDetailByUuid {
                resource_uuid,
                requester_id: p.user_id,
                role: p.role,
            },
        ),
    }
}

/// Decides the resource-detail fetch, as
/// `spec_get_resource_detail_by_uuid` describes.
pub fn get_resource_detail_by_uuid(ctx: &RequestContext, resource_uuid: String) -> (r: Result<
    ServiceCall,
    ApiError,
>)
    ensures
        r == spec_get_resource_detail_by_uuid(ctx.principal, resource_uuid),
{
    match &ctx.principal {
        None => Err(ApiError::Auth),
        Some(p) => Ok(
            ServiceCall::GetDetailByUuid {
                resource_uuid,
                requester_id: p.user_id.clone(),
                role: p.role,
            },
        ),
    }
}

/// Lists by category and language, with the pagination defaults applied.
pub fn get_resources_of_category_and_language(
    category: String,
    language: String,
    page: Option<u64>,
    page_size: Option<u64>,
) -> (r: ServiceCall)
    ensures
        r == (ServiceCall::ListByCategoryAndLanguage {
            category,
            language,
            page: spec_page(page),
            page_size: spec_page_size(page_size),
        }),
{
    ServiceCall::ListByCategoryAndLanguage {
        category,
        language,
        page: page_or_default(page),
        page_size: page_size_or_default(page_size),
    }
}

/// Lists by category, with the pagination defaults applied.
pub fn get_resources_of_category(category: String, page: Option<u64>, page_size: Option<u64>) -> (r:
    ServiceCall)
    ensures
        r == (ServiceCall::ListByCategory {
            category,
            page: spec_page(page),
            page_size: spec_page_size(page_size),
        }),
{
    ServiceCall::ListByCategory {
        category,
        page: page_or_default(page),
        page_size: page_size_or_default(page_size),
    }
}

/// The language a listing falls back to when the query names none.
pub open spec fn spec_language_or_default(language: Option<String>) -> Seq<char> {
    match language {
        Option::Some(l) => l@,
        Option::None => "PHP"@,
    }
}

/// Lists by language — `PHP` when the query names none — with the
/// pagination defaults applied.
pub fn get_resource_list_of_language(
    language: Option<String>,
    page: Option<u64>,
    page_size: Option<u64>,
) -> (r: ServiceCall)
    ensures
        r matches ServiceCall::ListByLanguage { language: l, page: pg, page_size: ps } && l@
            == spec_language_or_default(language) && pg == spec_page(page) && ps == spec_page_size(
            page_size,
        ),
{
    let l = match language {
        Some(l) => l,
        None => String::from_str("PHP"),
    };
    ServiceCall::ListByLanguage {
        language: l,
        page: page_or_default(page),
        page_size: page_size_or_default(page_size),
    }
}

/// Lists everything, with the pagination defaults applied.
pub fn get_resource_list(page: Option<u64>, page_size: Option<u64>) -> (r: ServiceCall)
    ensures
        r == (ServiceCall::ListAll { page: spec_page(page), page_size: spec_page_size(page_size) }),
{
    ServiceCall::ListAll { page: page_or_default(page), page_size: page_size_or_default(page_size) }
}

/// Passes a link-change request through to the service verbatim.
pub fn put_change_link(payload: SysResourceChangeLink) -> (r: ServiceCall)
    ensures
        r == (ServiceCall::ChangeDownloadLink { payload }),
{
    ServiceCall::ChangeDownloadLink { payload }
}

/// Answers the link change: the confirmation always names the new link;
/// a service failure downgrades the status to 500.
pub fn put_change_link_reply(resource_link: String, service_ok: bool) -> (r: HttpReply)
    ensures
        r.status == (if service_ok {
            200u16
        } else {
            500u16
        }),
        r.body matches Body::Text(m) && m@ == "download link changed to "@ + resource_link@,
{
    let mut m = String::from_str("download link changed to ");
    m.append(resource_link.as_str());
    HttpReply {
        status: if service_ok {
            200
        } else {
            500
        },
        body: Body::Text(m),
    }
}

/// The decision of the resource-creation handler: unauthorized without a
/// principal, else create with the payload unchanged and the principal
/// as owner.
pub open spec fn spec_post_create_resource(
    principal: Option<Principal>,
    payload: SysResourceCreateRequest,
) -> Result<ServiceCall, ApiError> {
    match principal {
        Option::None => Result::Err(ApiError::Auth),
        Option::Some(p) => Result::Ok(
            ServiceCall::CreateResource { payload, owner_id: p.user_id },
        ),
    }
}

/// Decides the resource creation, as `spec_post_create_resource`
/// describes.
pub fn post_create_resource(ctx: &RequestContext, payload: SysResourceCreateRequest) -> (r: Result<
    ServiceCall,
    ApiError,
>)
    ensures
        r == spec_post_create_resource(ctx.principal, payload),
{
    match &ctx.principal {
        None => Err(ApiError::Auth),
        Some(p) => Ok(
            ServiceCall::CreateResource { payload, owner_id: p.user_id.clone() },
        ),
    }
}

/// Answers the resource creation: 201 on success, the service failure's
/// status and message otherwise.
pub fn post_create_resource_reply(service_ok: bool) -> (r: HttpReply)
    ensures
        service_ok ==> r == (HttpReply { status: 201u16, body: Body::Empty }),
        !service_ok ==> r.status == ApiError::Upstream.spec_status() && (r.body matches Body::Text(
            m,
        ) && m@ == ApiError::Upstream.spec_message()),
{
    if service_ok {
        HttpReply { status: 201, body: Body::Empty }
    } else {
        HttpReply {
            status: ApiError::Upstream.http_status(),
            body: Body::Text(ApiError::Upstream.message()),
        }
    }
}

/// The reply that carries a resource detail to the client unchanged.
pub open spec fn spec_detail_reply_ok(detail: SysResourceResponse) -> HttpReply {
    HttpReply { status: 200u16, body: Body::Detail(detail) }
}

/// Answers the resource-detail fetch: the detail verbatim with 200, or
/// the error's status and message.
pub fn get_resource_detail_reply(reply: Result<SysResourceResponse, ApiError>) -> (r: HttpReply)
    ensures
        match reply {
            Result::Ok(detail) => r == spec_detail_reply_ok(detail),
            Result::Err(e) => r.status == e.spec_status() && (r.body matches Body::Text(m) && m@
                == e.spec_message()),
        },
{
    match reply {
        Ok(detail) => HttpReply { status: 200, body: Body::Detail(detail) },
        Err(e) => HttpReply { status: e.http_status(), body: Body::Text(e.message()) },
    }
}

/// Answers a listing: the rows verbatim with 200, or the error's status
/// and message.
pub fn get_resource_list_reply(reply: Result<Vec<SysResourceList>, ApiError>) -> (r: HttpReply)
    ensures
        match reply {
            Result::Ok(rows) => r == (HttpReply { status: 200u16, body: Body::Listing(rows) }),
            Result::Err(e) => r.status == e.spec_status() && (r.body matches Body::Text(m) && m@
                == e.spec_message()),
        },
{
    match reply {
        Ok(rows) => HttpReply { status: 200, body: Body::Listing(rows) },
        Err(e) => HttpReply { status: e.http_status(), body: Body::Text(e.message()) },
    }
}

/// Answers the image deletion: 200 with no body on success, or the
/// error's status and message.
pub fn delete_image_reply(reply: Result<(), ApiError>) -> (r: HttpReply)
    ensures
        match reply {
            Result::Ok(_) => r == (HttpReply { status: 200u16, body: Body::Empty }),
            Result::Err(e) => r.status == e.spec_status() && (r.body matches Body::Text(m) && m@
                == e.spec_message()),
        },
{
    match reply {
        Ok(_) => HttpReply { status: 200, body: Body::Empty },
        Err(e) => HttpReply { status: e.http_status(), body: Body::Text(e.message()) },
    }
}

/// Law: resource fields pass through this layer verbatim in both
/// directions. A create request reaches the service with its payload
/// unchanged and the creator as owner, and a detail the service returns
/// reaches the client unchanged with status 200. A resource created and
/// then fetched by its uuid therefore shows exactly the fields the
/// service stored and returned; that the service returns what it stored
/// is the service's own contract.
pub proof fn lemma_create_detail_round_trip(
    p: Principal,
    payload: SysResourceCreateRequest,
    detail: SysResourceResponse,
)
    ensures
        spec_post_create_resource(Option::Some(p), payload) == Result::Ok::<
            ServiceCall,
            ApiError,
        >(ServiceCall::CreateResource { payload, owner_id: p.user_id }),
        spec_detail_reply_ok(detail) == (HttpReply { status: 200u16, body: Body::Detail(detail) }),
{
}

} // verus!
