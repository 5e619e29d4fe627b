//! Request- and response-shaped values that pass through this layer
//! verbatim, and the result of one stored upload.

use vstd::prelude::*;

verus! {

/// A request to change the download link of a resource.
pub struct SysResourceChangeLink {
    pub resource_uuid: String,
    pub resource_link: String,
}

/// A request to create a resource.
pub struct SysResourceCreateRequest {
    pub resource_name: String,
    pub resource_category: String,
    pub resource_language: String,
    pub resource_link: String,
}

/// The detail of one resource, as the resource service returns it.
pub struct SysResourceResponse {
    pub resource_uuid: String,
    pub resource_name: String,
    pub resource_category: String,
    pub resource_language: String,
    pub resource_link: String,
}

/// One row of a resource listing.
pub struct SysResourceList {
    pub resource_uuid: String,
    pub resource_name: String,
    pub resource_category: String,
    pub resource_language: String,
}

/// One stored upload: where the file was written, and the generated
/// identifier embedded in that name.
pub struct UploadResult {
    pub stored_path: String,
    pub generated_id: String,
}

/// The mathematical model of an `UploadResult`: both fields as character
/// sequences.
pub ghost struct UploadModel {
    pub stored_path: Seq<char>,
    pub generated_id: Seq<char>,
}

impl View for UploadResult {
    type V = UploadModel;

    open spec fn view(&self) -> UploadModel {
        UploadModel { stored_path: self.stored_path@, generated_id: self.generated_id@ }
    }
}

impl DeepView for UploadResult {
    type V = UploadModel;

    open spec fn deep_view(&self) -> UploadModel {
        self.view()
    }
}

/// The body of an HTTP reply, as this layer shapes it.
pub enum Body {
    Empty,
    Text(String),
    Detail(SysResourceResponse),
    Listing(Vec<SysResourceList>),
    Uploads(Vec<UploadResult>),
}

/// One HTTP reply: a status code and a body.
pub struct HttpReply {
    pub status: u16,
    pub body: Body,
}

} // verus!
