use vstd::prelude::*;

use crate::frontmatter::{
    body_after, closing_marker, has_frontmatter, split_frontmatter, yaml_block, Frame,
    FrameError, FrontMatter,
};
use crate::naming::{opt_view, resolve_slug, resolved_slug};
use crate::remote::{
    delete_row_request, is_row_delete_request, is_upsert_request, upsert_request, Config,
    ConfigError, HttpRequest, is_success, is_success_spec,
};

verus! {

/// Why publishing or deleting a post failed.
#[derive(Debug)]
pub enum PostError {
    /// The document could not be read.
    Io(String),
    /// The frontmatter markers are not well formed.
    MalformedFrontmatter(String),
    /// The frontmatter block did not decode into a record.
    FrontmatterParse(String),
    /// The document has no frontmatter block.
    MissingFrontmatter,
    /// The object store refused the upload.
    StorageUpload { status: u16, body: String },
    /// The metadata table refused the upsert.
    MetadataUpsert { status: u16, body: String },
    /// The object store refused the deletion.
    StorageDelete { status: u16, body: String },
    /// The metadata table refused the deletion.
    MetadataDelete { status: u16, body: String },
    /// A request could not be sent or its answer not received.
    Transport(String),
    /// A required setting is missing.
    Config(ConfigError),
}

/// A post on its way out: its document, its metadata and the slug that keys both.
pub struct Publication {
    pub slug: String,
    pub front: FrontMatter,
}

/// Extracts the frontmatter block that publishing needs.
///
/// A document without the block fails with `MissingFrontmatter`; one whose
/// block is not closed fails with `MalformedFrontmatter`.
pub fn frame_document(doc: &str) -> (r: Result<Frame, PostError>)
    ensures
        !has_frontmatter(doc@) ==> r matches Err(PostError::MissingFrontmatter),
        has_frontmatter(doc@) && closing_marker(doc@) is None ==> r matches Err(
            PostError::MalformedFrontmatter(_),
        ),
        has_frontmatter(doc@) && closing_marker(doc@) is Some ==> {
            &&& r matches Ok(f)
            &&& f.yaml@ == yaml_block(doc@, closing_marker(doc@)->0)
            &&& f.body@ == body_after(doc@, closing_marker(doc@)->0)
        },
{
    match split_frontmatter(doc) {
        Ok(Some(f)) => Ok(f),
        Ok(None) => Err(PostError::MissingFrontmatter),
        Err(FrameError::NoClosingMarker) => Err(
            PostError::MalformedFrontmatter(String::from_str("no closing frontmatter marker")),
        ),
    }
}

/// Settles the slug of a decoded post: the explicit one, else the slugified
/// file stem of `path`, else the slugified title.
pub fn prepare_publish(path: &str, front: FrontMatter) -> (r: Publication)
    ensures
        r.slug@ == resolved_slug(opt_view(front.slug), path@, front.title@),
        r.front == front,
{
    let slug = resolve_slug(&front.slug, path, front.title.as_str());
    Publication { slug, front }
}

/// Decides what follows the upload of a post's document: on a 2xx status the
/// request that upserts its metadata row, else `StorageUpload` with the status
/// and the answer's body. No upsert is ever made after a failed upload.
pub fn after_upload(cfg: &Config, p: &Publication, status: u16, body: String) -> (r: Result<
    HttpRequest,
    PostError,
>)
    ensures
        is_success_spec(status) <==> r is Ok,
        r matches Ok(q) ==> is_upsert_request(*cfg, p.slug@, p.front, q),
        r matches Err(e) ==> e matches PostError::StorageUpload { status: s, body: b } && s
            == status && b == body,
{
    if is_success(status) {
        Ok(upsert_request(cfg, p.slug.as_str(), &p.front))
    } else {
        Err(PostError::StorageUpload { status, body })
    }
}

/// Decides how a publication ends once the metadata upsert is answered.
pub fn after_upsert(status: u16, body: String) -> (r: Result<(), PostError>)
    ensures
        is_success_spec(status) <==> r is Ok,
        r matches Err(e) ==> e matches PostError::MetadataUpsert { status: s, body: b } && s
            == status && b == body,
{
    if is_success(status) {
        Ok(())
    } else {
        Err(PostError::MetadataUpsert { status, body })
    }
}

/// Decides what follows the deletion of a stored object: on a 2xx status the
/// request that deletes the post's metadata rows, else `StorageDelete`.
pub fn after_object_delete(cfg: &Config, slug: &str, status: u16, body: String) -> (r: Result<
    HttpRequest,
    PostError,
>)
    ensures
        is_success_spec(status) <==> r is Ok,
        r matches Ok(q) ==> is_row_delete_request(*cfg, slug@, q),
        r matches Err(e) ==> e matches PostError::StorageDelete { status: s, body: b } && s
            == status && b == body,
{
    if is_success(status) {
        Ok(delete_row_request(cfg, slug))
    } else {
        Err(PostError::StorageDelete { status, body })
    }
}

/// Decides how a deletion ends once the metadata deletion is answered.
pub fn after_row_delete(status: u16, body: String) -> (r: Result<(), PostError>)
    ensures
        is_success_spec(status) <==> r is Ok,
        r matches Err(e) ==> e matches PostError::MetadataDelete { status: s, body: b } && s
            == status && b == body,
{
    if is_success(status) {
        Ok(())
    } else {
        Err(PostError::MetadataDelete { status, body })
    }
}

} // verus!
