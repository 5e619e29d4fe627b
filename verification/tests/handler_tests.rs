use resource_site_core::auth::{Principal, RequestContext};
use resource_site_core::dto::{Body, SysResourceChangeLink, SysResourceCreateRequest, SysResourceResponse};
use resource_site_core::error::ApiError;
use resource_site_core::handlers::{
    delete_image, delete_image_reply, get_resource_detail_by_uuid, get_resource_detail_reply,
    get_resource_list, get_resource_list_of_language, get_resource_list_reply,
    get_resources_of_category, get_resources_of_category_and_language, post_create_resource,
    post_create_resource_reply, put_change_link, put_change_link_reply, ServiceCall,
};
use resource_site_core::pagination::PaginationParams;

fn ctx_with_user(user_id: &str) -> RequestContext {
    RequestContext {
        principal: Some(Principal { user_id: user_id.to_string(), role: Some(2) }),
    }
}

fn anonymous() -> RequestContext {
    RequestContext { principal: None }
}

#[test]
fn pagination_defaults_are_page_1_size_49() {
    match get_resource_list(None, None) {
        ServiceCall::ListAll { page, page_size } => {
            assert_eq!(page, 1);
            assert_eq!(page_size, 49);
        }
        _ => panic!("expected the list-all call"),
    }
}

#[test]
fn explicit_page_size_10_is_passed_through_unchanged() {
    match get_resource_list(Some(3), Some(10)) {
        ServiceCall::ListAll { page, page_size } => {
            assert_eq!(page, 3);
            assert_eq!(page_size, 10);
        }
        _ => panic!("expected the list-all call"),
    }
}

#[test]
fn pagination_params_apply_the_documented_defaults() {
    let p = PaginationParams::new(Some("tools".to_string()), None, None, None);
    assert_eq!(p.page, 1);
    assert_eq!(p.page_size, 49);
    assert_eq!(p.category.as_deref(), Some("tools"));
    assert!(p.language.is_none());
}

#[test]
fn page_zero_is_lifted_to_one() {
    let p = PaginationParams::new(None, None, Some(0), Some(10));
    assert_eq!(p.page, 1);
    assert_eq!(p.page_size, 10);
}

#[test]
fn category_and_language_listing_keeps_both_filters() {
    match get_resources_of_category_and_language("web".to_string(), "Rust".to_string(), None, Some(5)) {
        ServiceCall::ListByCategoryAndLanguage { category, language, page, page_size } => {
            assert_eq!(category, "web");
            assert_eq!(language, "Rust");
            assert_eq!(page, 1);
            assert_eq!(page_size, 5);
        }
        _ => panic!("expected the category-and-language call"),
    }
}

#[test]
fn category_listing_keeps_the_filter() {
    match get_resources_of_category("web".to_string(), Some(2), None) {
        ServiceCall::ListByCategory { category, page, page_size } => {
            assert_eq!(category, "web");
            assert_eq!(page, 2);
            assert_eq!(page_size, 49);
        }
        _ => panic!("expected the category call"),
    }
}

#[test]
fn language_listing_defaults_to_php() {
    match get_resource_list_of_language(None, None, None) {
        ServiceCall::ListByLanguage { language, page, page_size } => {
            assert_eq!(language, "PHP");
            assert_eq!(page, 1);
            assert_eq!(page_size, 49);
        }
        _ => panic!("expected the language call"),
    }
}

#[test]
fn language_listing_keeps_an_explicit_language() {
    match get_resource_list_of_language(Some("Go".to_string()), None, None) {
        ServiceCall::ListByLanguage { language, .. } => assert_eq!(language, "Go"),
        _ => panic!("expected the language call"),
    }
}

#[test]
fn delete_image_without_principal_is_auth_error() {
    let r = delete_image(&anonymous(), "img-1".to_string());
    assert!(matches!(r, Err(ApiError::Auth)));
}

#[test]
fn delete_image_uses_the_principal_as_requester() {
    let r = delete_image(&ctx_with_user("u-77"), "img-1".to_string());
    match r {
        Ok(ServiceCall::DeleteImage { image_uuid, requester_id }) => {
            assert_eq!(image_uuid, "img-1");
            assert_eq!(requester_id, "u-77");
        }
        _ => panic!("expected the delete call"),
    }
}

#[test]
fn delete_image_reply_maps_ok_to_200_and_error_to_its_status() {
    assert_eq!(delete_image_reply(Ok(())).status, 200);
    assert_eq!(delete_image_reply(Err(ApiError::Upstream)).status, 500);
}

#[test]
fn detail_fetch_passes_uuid_requester_and_role() {
    let r = get_resource_detail_by_uuid(&ctx_with_user("u-9"), "res-4".to_string());
    match r {
        Ok(ServiceCall::GetDetailByUuid { resource_uuid, requester_id, role }) => {
            assert_eq!(resource_uuid, "res-4");
            assert_eq!(requester_id, "u-9");
            assert_eq!(role, Some(2));
        }
        _ => panic!("expected the detail call"),
    }
}

#[test]
fn detail_fetch_without_principal_is_auth_error() {
    let r = get_resource_detail_by_uuid(&anonymous(), "res-4".to_string());
    assert!(matches!(r, Err(ApiError::Auth)));
}

#[test]
fn change_link_passes_the_payload_verbatim() {
    let payload = SysResourceChangeLink {
        resource_uuid: "res-1".to_string(),
        resource_link: "https://example.org/pkg.tar.gz".to_string(),
    };
    match put_change_link(payload) {
        ServiceCall::ChangeDownloadLink { payload } => {
            assert_eq!(payload.resource_uuid, "res-1");
            assert_eq!(payload.resource_link, "https://example.org/pkg.tar.gz");
        }
        _ => panic!("expected the change-link call"),
    }
}

#[test]
fn change_link_reply_names_the_new_link() {
    let reply = put_change_link_reply("https://example.org/pkg.tar.gz".to_string(), true);
    assert_eq!(reply.status, 200);
    match reply.body {
        Body::Text(m) => assert_eq!(m, "download link changed to https://example.org/pkg.tar.gz"),
        _ => panic!("expected a text body"),
    }
    assert_eq!(put_change_link_reply("x".to_string(), false).status, 500);
}

#[test]
fn created_resource_reaches_the_service_unchanged_and_comes_back_unchanged() {
    let payload = SysResourceCreateRequest {
        resource_name: "pkg".to_string(),
        resource_category: "web".to_string(),
        resource_language: "Rust".to_string(),
        resource_link: "https://example.org/pkg.tar.gz".to_string(),
    };
    let r = post_create_resource(&ctx_with_user("u-3"), payload);
    let stored = match r {
        Ok(ServiceCall::CreateResource { payload, owner_id }) => {
            assert_eq!(owner_id, "u-3");
            assert_eq!(payload.resource_name, "pkg");
            assert_eq!(payload.resource_category, "web");
            assert_eq!(payload.resource_language, "Rust");
            assert_eq!(payload.resource_link, "https://example.org/pkg.tar.gz");
            payload
        }
        _ => panic!("expected the create call"),
    };
    // what the service stored comes back through the detail reply unchanged
    let detail = SysResourceResponse {
        resource_uuid: "res-9".to_string(),
        resource_name: stored.resource_name,
        resource_category: stored.resource_category,
        resource_language: stored.resource_language,
        resource_link: stored.resource_link,
    };
    let reply = get_resource_detail_reply(Ok(detail));
    assert_eq!(reply.status, 200);
    match reply.body {
        Body::Detail(d) => {
            assert_eq!(d.resource_uuid, "res-9");
            assert_eq!(d.resource_name, "pkg");
            assert_eq!(d.resource_category, "web");
            assert_eq!(d.resource_language, "Rust");
            assert_eq!(d.resource_link, "https://example.org/pkg.tar.gz");
        }
        _ => panic!("expected the detail body"),
    }
}

#[test]
fn create_without_principal_is_auth_error() {
    let payload = SysResourceCreateRequest {
        resource_name: "pkg".to_string(),
        resource_category: "web".to_string(),
        resource_language: "Rust".to_string(),
        resource_link: "l".to_string(),
    };
    assert!(matches!(post_create_resource(&anonymous(), payload), Err(ApiError::Auth)));
}

#[test]
fn create_reply_is_201_on_success_and_500_on_service_failure() {
    assert_eq!(post_create_resource_reply(true).status, 201);
    assert_eq!(post_create_resource_reply(false).status, 500);
}

#[test]
fn detail_reply_maps_errors_to_their_statuses() {
    assert_eq!(get_resource_detail_reply(Err(ApiError::NotFound)).status, 404);
    assert_eq!(get_resource_detail_reply(Err(ApiError::Auth)).status, 401);
}

#[test]
fn list_reply_carries_the_rows_verbatim() {
    let rows = vec![resource_site_core::dto::SysResourceList {
        resource_uuid: "res-1".to_string(),
        resource_name: "pkg".to_string(),
        resource_category: "web".to_string(),
        resource_language: "Rust".to_string(),
    }];
    let reply = get_resource_list_reply(Ok(rows));
    assert_eq!(reply.status, 200);
    match reply.body {
        Body::Listing(rows) => {
            assert_eq!(rows.len(), 1);
            assert_eq!(rows[0].resource_name, "pkg");
        }
        _ => panic!("expected the listing body"),
    }
    assert_eq!(get_resource_list_reply(Err(ApiError::Upstream)).status, 500);
}
