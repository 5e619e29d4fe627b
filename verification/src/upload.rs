//! The file-upload ingestion policy.
//!
//! A description upload takes one file of the `text/` family whose name
//! carries an `md` or `txt` extension; an avatar upload takes a batch of
//! files and silently skips every part that is not of the `image/`
//! family. Each accepted file is planned at a fixed per-kind directory
//! under a freshly generated identifier plus the original extension, so
//! the client-supplied name never reaches the filesystem and two
//! distinct identifiers can never collide.

use vstd::prelude::*;

use crate::dto::{Body, HttpReply, UploadModel, UploadResult};
use crate::error::ApiError;
use crate::ids::{fresh_id, spec_id_shape};
use crate::text::{
    extension_of, eq_lowered, make_stored_name, spec_extension_of, spec_lower, spec_starts_with,
    spec_stored_name, starts_with,
};

verus! {

/// One file of a multipart request: its declared content type and the
/// original file name, when one was sent.
pub struct FilePart {
    pub content_type: String,
    pub original_name: Option<String>,
}

/// The mathematical model of a `FilePart`.
pub ghost struct FilePartModel {
    pub content_type: Seq<char>,
    pub original_name: Option<Seq<char>>,
}

impl View for FilePart {
    type V = FilePartModel;

    open spec fn view(&self) -> FilePartModel {
        FilePartModel {
            content_type: self.content_type@,
            original_name: match self.original_name {
                Option::Some(n) => Option::Some(n@),
                Option::None => Option::None,
            },
        }
    }
}

impl DeepView for FilePart {
    type V = FilePartModel;

    open spec fn deep_view(&self) -> FilePartModel {
        self.view()
    }
}

/// The fixed directory for description files.
pub open spec fn description_dir() -> Seq<char> {
    "../assets/uploads/description/"@
}

/// The fixed directory for avatar and screenshot images.
pub open spec fn avatar_dir() -> Seq<char> {
    "../assets/uploads/avatar/"@
}

fn description_dir_str() -> (r: &'static str)
    ensures
        r@ == description_dir(),
{
    "../assets/uploads/description/"
}

fn avatar_dir_str() -> (r: &'static str)
    ensures
        r@ == avatar_dir(),
{
    "../assets/uploads/avatar/"
}

/// The file name the plan works from: the original name, or `file` when
/// none was sent (which carries no extension).
pub open spec fn spec_original_name(part: FilePartModel) -> Seq<char> {
    match part.original_name {
        Option::Some(n) => n,
        Option::None => "file"@,
    }
}

/// The description-upload decision for one file under the identifier
/// `id`: rejected unless the content type is of the `text/` family and
/// the name's extension, lowercased, is `md` or `txt`; accepted files go
/// to the description directory as `<id>.<extension>`.
pub open spec fn spec_plan_description(part: FilePartModel, id: Seq<char>) -> Result<
    Seq<char>,
    ApiError,
> {
    if !spec_starts_with(part.content_type, "text/"@) {
        Result::Err(ApiError::Validation)
    } else {
        match spec_extension_of(spec_original_name(part)) {
            Option::None => Result::Err(ApiError::Validation),
            Option::Some(e) => {
                let le = spec_lower(e);
                if le == "md"@ || le == "txt"@ {
                    Result::Ok(spec_stored_name(description_dir(), id, le))
                } else {
                    Result::Err(ApiError::Validation)
                }
            },
        }
    }
}

/// `r` is what the description upload decides for `part` under `id`: a
/// missing file is a validation failure, and otherwise `r` agrees with
/// `spec_plan_description`.
pub open spec fn spec_description_outcome(
    part: Option<FilePartModel>,
    id: Seq<char>,
    r: Result<String, ApiError>,
) -> bool {
    match part {
        Option::None => r == Result::Err::<String, ApiError>(ApiError::Validation),
        Option::Some(p) => match (r, spec_plan_description(p, id)) {
            (Result::Ok(path), Result::Ok(sp)) => path@ == sp,
            (Result::Err(e), Result::Err(se)) => e == se,
            _ => false,
        },
    }
}

/// The model of an optional borrowed file part.
pub open spec fn spec_opt_part(part: Option<&FilePart>) -> Option<FilePartModel> {
    match part {
        Option::Some(p) => Option::Some(p@),
        Option::None => Option::None,
    }
}

/// Decides the description upload for the given file under the given
/// identifier, as `spec_description_outcome` describes.
pub fn put_upload_description(part: Option<&FilePart>, id: &str) -> (r: Result<String, ApiError>)
    ensures
        spec_description_outcome(spec_opt_part(part), id@, r),
{
    let part = match part {
        Some(p) => p,
        None => {
            return Err(ApiError::Validation);
        },
    };
    if !starts_with(part.content_type.as_str(), "text/") {
        return Err(ApiError::Validation);
    }
    let name: &str = match &part.original_name {
        Some(n) => n.as_str(),
        None => "file",
    };
    let ext = match extension_of(name) {
        Some(e) => e,
        None => {
            return Err(ApiError::Validation);
        },
    };
    if eq_lowered(ext, "md") {
        Ok(make_stored_name(description_dir_str(), id, "md"))
    } else if eq_lowered(ext, "txt") {
        Ok(make_stored_name(description_dir_str(), id, "txt"))
    } else {
        Err(ApiError::Validation)
    }
}

/// Answers the description upload once the copy ran: the destination
/// path as confirmation with 200 when the plan and the copy succeeded,
/// 500 when the copy failed, and the planning error's status and message
/// when the file was rejected before any write.
pub fn put_upload_description_reply(plan: Result<String, ApiError>, copy_ok: bool) -> (r:
    HttpReply)
    ensures
        match plan {
            Result::Ok(dest) => {
                if copy_ok {
                    r == (HttpReply { status: 200u16, body: Body::Text(dest) })
                } else {
                    r.status == ApiError::Io.spec_status() && (r.body matches Body::Text(m) && m@
                        == ApiError::Io.spec_message())
                }
            },
            Result::Err(e) => r.status == e.spec_status() && (r.body matches Body::Text(m) && m@
                == e.spec_message()),
        },
{
    match plan {
        Ok(dest) => {
            if copy_ok {
                HttpReply { status: 200, body: Body::Text(dest) }
            } else {
                HttpReply {
                    status: ApiError::Io.http_status(),
                    body: Body::Text(ApiError::Io.message()),
                }
            }
        },
        Err(e) => HttpReply { status: e.http_status(), body: Body::Text(e.message()) },
    }
}

/// A part is accepted for the avatar upload iff its content type is of
/// the `image/` family.
pub open spec fn spec_is_image(part: FilePartModel) -> bool {
    spec_starts_with(part.content_type, "image/"@)
}

/// The extension an accepted avatar part is stored under: the original
/// name's extension, or `jpg` when there is none.
pub open spec fn spec_avatar_ext(part: FilePartModel) -> Seq<char> {
    match spec_extension_of(spec_original_name(part)) {
        Option::Some(e) => e,
        Option::None => "jpg"@,
    }
}

/// The plan for one accepted avatar part under the identifier `id`.
pub open spec fn spec_avatar_plan(part: FilePartModel, id: Seq<char>) -> UploadModel {
    UploadModel {
        stored_path: spec_stored_name(avatar_dir(), id, spec_avatar_ext(part)),
        generated_id: id,
    }
}

/// The plans of a batch: one per part of the `image/` family, in order,
/// each under its own identifier; other parts are skipped silently.
pub open spec fn spec_avatar_plans(parts: Seq<FilePartModel>, ids: Seq<Seq<char>>) -> Seq<
    UploadModel,
>
    decreases parts.len(),
{
    if parts.len() == 0 {
        Seq::empty()
    } else {
        let rest = spec_avatar_plans(parts.drop_last(), ids.drop_last());
        if spec_is_image(parts.last()) {
            rest.push(spec_avatar_plan(parts.last(), ids.last()))
        } else {
            rest
        }
    }
}

/// Plans the avatar upload of a batch, one identifier per part, as
/// `spec_avatar_plans` describes.
pub fn put_upload_image(parts: &Vec<FilePart>, ids: &Vec<String>) -> (plans: Vec<UploadResult>)
    requires
        parts@.len() == ids@.len(),
    ensures
        plans.deep_view() == spec_avatar_plans(parts.deep_view(), ids.deep_view()),
{
    let n = parts.len();
    let mut plans: Vec<UploadResult> = Vec::new();
    let mut k: usize = 0;
    proof {
        assert(parts.deep_view().subrange(0, 0) =~= Seq::<FilePartModel>::empty());
    }
    while k < n
        invariant
            k <= n,
            n == parts@.len(),
            n == ids@.len(),
            plans.deep_view() == spec_avatar_plans(
                parts.deep_view().subrange(0, k as int),
                ids.deep_view().subrange(0, k as int),
            ),
        decreases n - k,
    {
        let ghost old_plans = plans.deep_view();
        let part = &parts[k];
        if starts_with(part.content_type.as_str(), "image/") {
            let name: &str = match &part.original_name {
                Some(nm) => nm.as_str(),
                None => "file",
            };
            let dest = match extension_of(name) {
                Some(e) => make_stored_name(avatar_dir_str(), ids[k].as_str(), e),
                None => make_stored_name(avatar_dir_str(), ids[k].as_str(), "jpg"),
            };
            let id_copy = ids[k].clone();
            plans.push(UploadResult { stored_path: dest, generated_id: id_copy });
            proof {
                assert(plans.deep_view() =~= old_plans.push(
                    spec_avatar_plan(parts.deep_view()[k as int], ids.deep_view()[k as int]),
                ));
            }
        }
        k += 1;
        proof {
            let pk = parts.deep_view().subrange(0, k as int);
            let ik = ids.deep_view().subrange(0, k as int);
            assert(pk.drop_last() =~= parts.deep_view().subrange(0, k - 1));
            assert(ik.drop_last() =~= ids.deep_view().subrange(0, k - 1));
            assert(pk.last() == parts.deep_view()[k - 1]);
            assert(ik.last() == ids.deep_view()[k - 1]);
        }
    }
    proof {
        assert(parts.deep_view().subrange(0, n as int) =~= parts.deep_view());
        assert(ids.deep_view().subrange(0, n as int) =~= ids.deep_view());
    }
    plans
}

/// Law: storage names never collide. Two identifiers of the fresh-id
/// shape that differ anywhere give different storage names under one
/// directory, whatever the extensions are — so two uploads of the same
/// original file name are stored apart whenever their generated
/// identifiers differ.
pub proof fn lemma_distinct_ids_distinct_names(
    dir: Seq<char>,
    id1: Seq<char>,
    id2: Seq<char>,
    e1: Seq<char>,
    e2: Seq<char>,
)
    requires
        id1.len() == id2.len(),
        id1 != id2,
    ensures
        spec_stored_name(dir, id1, e1) != spec_stored_name(dir, id2, e2),
{
    let n1 = spec_stored_name(dir, id1, e1);
    let n2 = spec_stored_name(dir, id2, e2);
    if n1 == n2 {
        assert forall|k: int| 0 <= k < id1.len() implies id1[k] == id2[k] by {
            assert(n1[dir.len() + k] == id1[k]);
            assert(n2[dir.len() + k] == id2[k]);
        }
        assert(id1 =~= id2);
    }
}

/// Law: the names of two uploads with distinct fresh identifiers are
/// distinct, whatever was uploaded.
pub proof fn lemma_fresh_ids_no_collision(
    dir: Seq<char>,
    id1: Seq<char>,
    id2: Seq<char>,
    e1: Seq<char>,
    e2: Seq<char>,
)
    requires
        spec_id_shape(id1),
        spec_id_shape(id2),
        id1 != id2,
    ensures
        spec_stored_name(dir, id1, e1) != spec_stored_name(dir, id2, e2),
{
    lemma_distinct_ids_distinct_names(dir, id1, id2, e1, e2);
}

/// The plan `u` stems from the identifier `id`: it carries `id` and its
/// path stores `id` under the avatar directory with some extension.
spec fn plan_from(u: UploadModel, id: Seq<char>) -> bool {
    u.generated_id == id && (exists|e: Seq<char>|
        u.stored_path == #[trigger] spec_stored_name(avatar_dir(), id, e))
}

/// Every plan of a batch stems from one of the batch's identifiers.
proof fn lemma_plans_stem_from_ids(parts: Seq<FilePartModel>, ids: Seq<Seq<char>>)
    requires
        parts.len() == ids.len(),
    ensures
        forall|k: int|
            0 <= k < spec_avatar_plans(parts, ids).len() ==> exists|j: int|
                0 <= j < ids.len() && plan_from(#[trigger] spec_avatar_plans(parts, ids)[k], ids[j]),
    decreases parts.len(),
{
    if parts.len() == 0 {
    } else {
        let pp = parts.drop_last();
        let ii = ids.drop_last();
        lemma_plans_stem_from_ids(pp, ii);
        let prev = spec_avatar_plans(pp, ii);
        let plans = spec_avatar_plans(parts, ids);
        assert forall|k: int| 0 <= k < plans.len() implies exists|j: int|
            0 <= j < ids.len() && plan_from(#[trigger] plans[k], ids[j]) by {
            if k < prev.len() {
                let j = choose|j: int| 0 <= j < ii.len() && plan_from(prev[k], ii[j]);
                assert(ii[j] == ids[j]);
                assert(plans[k] == prev[k]);
                assert(plan_from(plans[k], ids[j]));
            } else {
                let u = spec_avatar_plan(parts.last(), ids.last());
                assert(u.stored_path == spec_stored_name(
                    avatar_dir(),
                    ids.last(),
                    spec_avatar_ext(parts.last()),
                ));
                assert(plan_from(u, ids[ids.len() - 1]));
                assert(plans[k] == u);
            }
        }
    }
}

/// Law: one batch of plans made from pairwise-distinct identifiers of
/// the fresh-id shape stores every accepted file under a distinct path —
/// a batch of uploads, whatever the files are named, never collides
/// with itself.
pub proof fn lemma_avatar_batch_paths_distinct(parts: Seq<FilePartModel>, ids: Seq<Seq<char>>)
    requires
        parts.len() == ids.len(),
        forall|i: int| 0 <= i < ids.len() ==> spec_id_shape(#[trigger] ids[i]),
        forall|i: int, j: int| 0 <= i < j < ids.len() ==> ids[i] != ids[j],
    ensures
        forall|k: int, l: int|
            0 <= k < l < spec_avatar_plans(parts, ids).len() ==> (#[trigger] spec_avatar_plans(
                parts,
                ids,
            )[k]).stored_path != (#[trigger] spec_avatar_plans(parts, ids)[l]).stored_path,
    decreases parts.len(),
{
    if parts.len() == 0 {
    } else {
        let pp = parts.drop_last();
        let ii = ids.drop_last();
        lemma_avatar_batch_paths_distinct(pp, ii);
        let prev = spec_avatar_plans(pp, ii);
        let plans = spec_avatar_plans(parts, ids);
        if spec_is_image(parts.last()) {
            lemma_plans_stem_from_ids(pp, ii);
            let u = spec_avatar_plan(parts.last(), ids.last());
            assert forall|k: int| 0 <= k < prev.len() implies (#[trigger] prev[k]).stored_path
                != u.stored_path by {
                let j = choose|j: int| 0 <= j < ii.len() && plan_from(prev[k], ii[j]);
                let e = choose|e: Seq<char>|
                    prev[k].stored_path == #[trigger] spec_stored_name(avatar_dir(), ii[j], e);
                assert(ii[j] == ids[j]);
                assert(ids[j] != ids[ids.len() - 1]);
                lemma_fresh_ids_no_collision(
                    avatar_dir(),
                    ids[j],
                    ids.last(),
                    e,
                    spec_avatar_ext(parts.last()),
                );
            }
            assert(plans == prev.push(u));
            assert forall|k: int, l: int| 0 <= k < l < plans.len() implies (#[trigger] plans[k]).stored_path
                != (#[trigger] plans[l]).stored_path by {
                if l < prev.len() {
                    assert(plans[k] == prev[k] && plans[l] == prev[l]);
                } else {
                    assert(plans[l] == u);
                    assert(plans[k] == prev[k]);
                }
            }
        } else {
            assert(plans == prev);
        }
    }
}

/// Decides the description upload with a freshly generated identifier.
pub fn plan_description_upload(part: Option<&FilePart>) -> (r: Result<String, ApiError>)
    ensures
        exists|id: Seq<char>|
            spec_id_shape(id) && #[trigger] spec_description_outcome(spec_opt_part(part), id, r),
{
    let id = fresh_id();
    let r = put_upload_description(part, id.as_str());
    proof {
        assert(spec_description_outcome(spec_opt_part(part), id@, r));
    }
    r
}

/// Plans the avatar upload of a batch, generating one fresh identifier
/// per part.
pub fn plan_avatar_uploads(parts: &Vec<FilePart>) -> (plans: Vec<UploadResult>)
    ensures
        exists|ids: Seq<Seq<char>>|
            {
                &&& ids.len() == parts@.len()
                &&& forall|i: int| 0 <= i < ids.len() ==> spec_id_shape(#[trigger] ids[i])
                &&& plans.deep_view() == #[trigger] spec_avatar_plans(parts.deep_view(), ids)
            },
{
    let n = parts.len();
    let mut ids: Vec<String> = Vec::new();
    while ids.len() < n
        invariant
            ids@.len() <= n,
            forall|i: int| 0 <= i < ids@.len() ==> spec_id_shape(#[trigger] ids@[i]@),
        decreases n - ids@.len(),
    {
        ids.push(fresh_id());
    }
    let plans = put_upload_image(parts, &ids);
    proof {
        let w = ids.deep_view();
        assert(w.len() == parts@.len());
        assert(forall|i: int| 0 <= i < w.len() ==> spec_id_shape(#[trigger] w[i]));
        assert(plans.deep_view() == spec_avatar_plans(parts.deep_view(), w));
    }
    plans
}

/// Every copy of the batch succeeded.
pub open spec fn spec_all_ok(ok: Seq<bool>) -> bool {
    forall|i: int| 0 <= i < ok.len() ==> ok[i]
}

/// The pairs whose copies succeeded, in order.
pub open spec fn spec_kept(plans: Seq<UploadModel>, ok: Seq<bool>) -> Seq<UploadModel>
    decreases plans.len(),
{
    if plans.len() == 0 {
        Seq::empty()
    } else {
        let rest = spec_kept(plans.drop_last(), ok.drop_last());
        if ok.last() {
            rest.push(plans.last())
        } else {
            rest
        }
    }
}

/// Answers the avatar upload once the copies and the metadata
/// persistence ran. A request that carried no file at all is a
/// validation failure. Otherwise the reply carries exactly the pairs
/// whose copies succeeded; the status is 200 only when every copy and
/// the persistence succeeded, and 500 otherwise — a partial failure
/// downgrades the status but never drops a stored pair.
pub fn put_upload_image_reply(
    plans: &Vec<UploadResult>,
    copy_ok: &Vec<bool>,
    service_ok: bool,
    had_files: bool,
) -> (r: HttpReply)
    requires
        copy_ok@.len() == plans@.len(),
    ensures
        !had_files ==> r.status == ApiError::Validation.spec_status() && (r.body matches Body::Text(
            m,
        ) && m@ == ApiError::Validation.spec_message()),
        had_files ==> {
            &&& r.status == (if spec_all_ok(copy_ok@) && service_ok {
                200u16
            } else {
                500u16
            })
            &&& (r.body matches Body::Uploads(kept) && kept.deep_view() == spec_kept(
                plans.deep_view(),
                copy_ok@,
            ))
        },
{
    if !had_files {
        return HttpReply {
            status: ApiError::Validation.http_status(),
            body: Body::Text(ApiError::Validation.message()),
        };
    }
    let n = plans.len();
    let mut kept: Vec<UploadResult> = Vec::new();
    let mut all_ok: bool = true;
    let mut i: usize = 0;
    proof {
        assert(plans.deep_view().subrange(0, 0) =~= Seq::<UploadModel>::empty());
    }
    while i < n
        invariant
            i <= n,
            n == plans@.len(),
            n == copy_ok@.len(),
            all_ok == spec_all_ok(copy_ok@.subrange(0, i as int)),
            kept.deep_view() == spec_kept(
                plans.deep_view().subrange(0, i as int),
                copy_ok@.subrange(0, i as int),
            ),
        decreases n - i,
    {
        let ghost old_kept = kept.deep_view();
        if copy_ok[i] {
            kept.push(
                UploadResult {
                    stored_path: plans[i].stored_path.clone(),
                    generated_id: plans[i].generated_id.clone(),
                },
            );
            proof {
                assert(kept.deep_view() =~= old_kept.push(plans.deep_view()[i as int]));
            }
        } else {
            all_ok = false;
        }
        i += 1;
        proof {
            let pk = plans.deep_view().subrange(0, i as int);
            let ok = copy_ok@.subrange(0, i as int);
            assert(pk.drop_last() =~= plans.deep_view().subrange(0, i - 1));
            assert(ok.drop_last() =~= copy_ok@.subrange(0, i - 1));
            assert(pk.last() == plans.deep_view()[i - 1]);
            assert(ok.last() == copy_ok@[i - 1]);
            assert(ok =~= copy_ok@.subrange(0, i - 1).push(copy_ok@[i - 1]));
        }
    }
    proof {
        assert(plans.deep_view().subrange(0, n as int) =~= plans.deep_view());
        assert(copy_ok@.subrange(0, n as int) =~= copy_ok@);
    }
    let status: u16 = if all_ok && service_ok {
        200
    } else {
        500
    };
    HttpReply { status, body: Body::Uploads(kept) }
}

} // verus!
