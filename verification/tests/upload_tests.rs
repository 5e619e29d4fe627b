use resource_site_core::dto::Body;
use resource_site_core::error::ApiError;
use resource_site_core::upload::{
    plan_avatar_uploads, plan_description_upload, put_upload_description,
    put_upload_description_reply, put_upload_image, put_upload_image_reply, FilePart,
};

fn part(content_type: &str, name: Option<&str>) -> FilePart {
    FilePart {
        content_type: content_type.to_string(),
        original_name: name.map(|n| n.to_string()),
    }
}

const ID_A: &str = "0f3a9b2c-1d4e-4f5a-8b6c-7d8e9f0a1b2c";
const ID_B: &str = "9e8d7c6b-5a49-4838-a7b6-c5d4e3f2a1b0";

#[test]
fn markdown_description_is_stored_under_a_fresh_name_ending_md() {
    let p = part("text/markdown", Some("notes.md"));
    let r = put_upload_description(Some(&p), ID_A).expect("a markdown file must be accepted");
    assert_eq!(r, format!("../assets/uploads/description/{}.md", ID_A));
    assert!(r.ends_with(".md"));
    let reply = put_upload_description_reply(Ok(r), true);
    assert_eq!(reply.status, 200);
}

#[test]
fn png_at_the_description_endpoint_is_rejected_with_400() {
    let p = part("image/png", Some("photo.png"));
    let r = put_upload_description(Some(&p), ID_A);
    assert_eq!(r, Err(ApiError::Validation));
    let reply = put_upload_description_reply(r, true);
    assert_eq!(reply.status, 400);
}

#[test]
fn description_extension_is_lowercased() {
    let p = part("text/plain", Some("README.TXT"));
    let r = put_upload_description(Some(&p), ID_B).expect("an uppercase txt must be accepted");
    assert_eq!(r, format!("../assets/uploads/description/{}.txt", ID_B));
}

#[test]
fn description_without_extension_is_rejected() {
    let p = part("text/plain", Some("notes"));
    assert_eq!(put_upload_description(Some(&p), ID_A), Err(ApiError::Validation));
}

#[test]
fn description_with_disallowed_extension_is_rejected() {
    let p = part("text/plain", Some("script.exe"));
    assert_eq!(put_upload_description(Some(&p), ID_A), Err(ApiError::Validation));
}

#[test]
fn description_without_any_file_is_rejected() {
    assert_eq!(put_upload_description(None, ID_A), Err(ApiError::Validation));
}

#[test]
fn description_without_a_name_is_rejected() {
    let p = part("text/plain", None);
    assert_eq!(put_upload_description(Some(&p), ID_A), Err(ApiError::Validation));
}

#[test]
fn hidden_file_name_has_no_extension() {
    let p = part("text/plain", Some(".md"));
    assert_eq!(put_upload_description(Some(&p), ID_A), Err(ApiError::Validation));
}

#[test]
fn copy_failure_after_an_accepted_description_is_500() {
    let p = part("text/markdown", Some("notes.md"));
    let plan = put_upload_description(Some(&p), ID_A);
    let reply = put_upload_description_reply(plan, false);
    assert_eq!(reply.status, 500);
}

#[test]
fn pdf_among_avatars_is_silently_dropped() {
    let parts = vec![
        part("image/png", Some("a.png")),
        part("application/pdf", Some("b.pdf")),
        part("image/jpeg", Some("c.jpeg")),
    ];
    let ids: Vec<String> = vec![ID_A.to_string(), ID_B.to_string(), "3c2b1a09-8f7e-4d6c-b5a4-392817061504".to_string()];
    let plans = put_upload_image(&parts, &ids);
    assert_eq!(plans.len(), 2);
    assert_eq!(plans[0].stored_path, format!("../assets/uploads/avatar/{}.png", ID_A));
    assert_eq!(plans[0].generated_id, ID_A);
    assert_eq!(
        plans[1].stored_path,
        "../assets/uploads/avatar/3c2b1a09-8f7e-4d6c-b5a4-392817061504.jpeg"
    );
}

#[test]
fn avatar_without_extension_defaults_to_jpg() {
    let parts = vec![part("image/png", Some("selfie"))];
    let ids = vec![ID_A.to_string()];
    let plans = put_upload_image(&parts, &ids);
    assert_eq!(plans.len(), 1);
    assert_eq!(plans[0].stored_path, format!("../assets/uploads/avatar/{}.jpg", ID_A));
}

#[test]
fn avatar_batch_of_nothing_but_text_produces_no_plans() {
    let parts = vec![part("text/plain", Some("a.txt"))];
    let ids = vec![ID_A.to_string()];
    let plans = put_upload_image(&parts, &ids);
    assert!(plans.is_empty());
}

#[test]
fn same_name_uploaded_twice_gets_two_distinct_paths() {
    let p = part("text/markdown", Some("notes.md"));
    let first = plan_description_upload(Some(&p)).expect("first upload must be accepted");
    let second = plan_description_upload(Some(&p)).expect("second upload must be accepted");
    assert_ne!(first, second);
    // directory (30) + identifier (36) + dot + extension (2)
    assert_eq!(first.len(), 69);
    assert_eq!(second.len(), 69);
}

#[test]
fn avatar_plans_carry_fresh_identifiers() {
    let parts = vec![part("image/png", Some("a.png")), part("image/gif", Some("b.gif"))];
    let plans = plan_avatar_uploads(&parts);
    assert_eq!(plans.len(), 2);
    assert_eq!(plans[0].generated_id.len(), 36);
    assert_eq!(plans[1].generated_id.len(), 36);
    assert_ne!(plans[0].generated_id, plans[1].generated_id);
    assert_ne!(plans[0].stored_path, plans[1].stored_path);
    assert!(plans[0].stored_path.ends_with(".png"));
}

#[test]
fn avatar_reply_with_all_copies_ok_is_200_with_all_pairs() {
    let parts = vec![part("image/png", Some("a.png"))];
    let ids = vec![ID_A.to_string()];
    let plans = put_upload_image(&parts, &ids);
    let reply = put_upload_image_reply(&plans, &vec![true], true, true);
    assert_eq!(reply.status, 200);
    match reply.body {
        Body::Uploads(kept) => assert_eq!(kept.len(), 1),
        _ => panic!("expected the accepted pairs in the body"),
    }
}

#[test]
fn avatar_reply_with_a_failed_copy_is_500_but_keeps_the_stored_pairs() {
    let parts = vec![part("image/png", Some("a.png")), part("image/png", Some("b.png"))];
    let ids = vec![ID_A.to_string(), ID_B.to_string()];
    let plans = put_upload_image(&parts, &ids);
    let reply = put_upload_image_reply(&plans, &vec![true, false], true, true);
    assert_eq!(reply.status, 500);
    match reply.body {
        Body::Uploads(kept) => {
            assert_eq!(kept.len(), 1);
            assert_eq!(kept[0].generated_id, ID_A);
        }
        _ => panic!("expected the stored pairs in the body"),
    }
}

#[test]
fn avatar_reply_with_failed_persistence_is_500() {
    let parts = vec![part("image/png", Some("a.png"))];
    let ids = vec![ID_A.to_string()];
    let plans = put_upload_image(&parts, &ids);
    let reply = put_upload_image_reply(&plans, &vec![true], false, true);
    assert_eq!(reply.status, 500);
}

#[test]
fn avatar_request_without_any_file_is_400() {
    let reply = put_upload_image_reply(&Vec::new(), &Vec::new(), true, false);
    assert_eq!(reply.status, 400);
}
