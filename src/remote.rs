use vstd::prelude::*;

use crate::frontmatter::FrontMatter;
use crate::text::{strip_slashes, strip_slashes_spec};

verus! {

/// Where posts go: the service's base URL, its credential, the bucket that
/// holds the documents and the table that holds their metadata.
pub struct Config {
    pub url: String,
    pub key: String,
    pub bucket: String,
    pub table: String,
}

/// The HTTP methods the service is called with.
#[derive(Debug, Clone, Copy, PartialEq, Eq, Structural)]
pub enum Method {
    Post,
    Delete,
}

/// What a request carries.
pub enum Body {
    Empty,
    /// A multipart form with one file field.
    Multipart { field: String, file_name: String, mime: String, text: String },
    /// A JSON text.
    Json(String),
}

/// A call to the remote service, ready to be sent.
pub struct HttpRequest {
    pub method: Method,
    pub url: String,
    pub headers: Vec<(String, String)>,
    pub body: Body,
}

/// What `serde_json` writes for a string: the JSON string literal.
pub uninterp spec fn json_quoted(s: Seq<char>) -> Seq<char>;

/// Relies on `serde_json::to_string` on a `str`: the JSON string literal of the
/// text, quoted and escaped. Serialising a `str` into memory cannot fail.
#[verifier::external_body]
fn json_quote(s: &str) -> (r: String)
    ensures
        r@ == json_quoted(s@),
{
    serde_json::to_string(s).unwrap_or_default()
}

/// Whether a status code reports success (the 2xx class).
pub open spec fn is_success_spec(status: u16) -> bool {
    200 <= status && status < 300
}

/// Decides whether an HTTP status code reports success.
pub fn is_success(status: u16) -> (r: bool)
    ensures
        r == is_success_spec(status),
{
    200 <= status && status < 300
}

/// The base URL without trailing slashes.
pub open spec fn base_of(cfg: Config) -> Seq<char> {
    strip_slashes_spec(cfg.url@)
}

/// The value of the authorization header.
pub open spec fn bearer_of(cfg: Config) -> Seq<char> {
    "Bearer "@ + cfg.key@
}

/// Whether a header has the given name and value.
pub open spec fn header_is(h: (String, String), name: Seq<char>, value: Seq<char>) -> bool {
    h.0@ == name && h.1@ == value
}

/// Whether a request carries exactly the headers that authorize it and ask
/// for a JSON answer.
pub open spec fn auth_accept_headers(cfg: Config, h: Seq<(String, String)>) -> bool {
    &&& h.len() == 3
    &&& header_is(h[0], "Authorization"@, bearer_of(cfg))
    &&& header_is(h[1], "apikey"@, cfg.key@)
    &&& header_is(h[2], "Accept"@, "application/json"@)
}

/// The URL of a stored object.
pub open spec fn object_url(cfg: Config, key: Seq<char>) -> Seq<char> {
    base_of(cfg) + "/storage/v1/object/"@ + cfg.bucket@ + "/"@ + key
}

/// The URL of the metadata table.
pub open spec fn table_url(cfg: Config) -> Seq<char> {
    base_of(cfg) + "/rest/v1/"@ + cfg.table@
}

/// The JSON texts of the tags, separated by commas.
pub open spec fn tags_json(tags: Seq<String>) -> Seq<char>
    decreases tags.len(),
{
    if tags.len() == 0 {
        Seq::empty()
    } else if tags.len() == 1 {
        json_quoted(tags[0]@)
    } else {
        tags_json(tags.drop_last()) + ","@ + json_quoted(tags.last()@)
    }
}

/// The summary of a post, empty when absent.
pub open spec fn summary_or_empty(fm: FrontMatter) -> Seq<char> {
    match fm.summary {
        Some(s) => s@,
        None => ""@,
    }
}

/// The tags of a post, none when absent.
pub open spec fn tags_or_empty(fm: FrontMatter) -> Seq<String> {
    match fm.tags {
        Some(t) => t@,
        None => Seq::empty(),
    }
}

/// The JSON array holding the one metadata row of a post.
pub open spec fn row_json(slug: Seq<char>, fm: FrontMatter) -> Seq<char> {
    "[{\"slug\":"@ + json_quoted(slug) + ",\"title\":"@ + json_quoted(fm.title@)
        + ",\"summary\":"@ + json_quoted(summary_or_empty(fm)) + ",\"tags\":["@ + tags_json(
        tags_or_empty(fm),
    ) + "]}]"@
}

/// The text of a metadata-table filter on a slug: the slug less one trailing `.md`.
pub open spec fn row_key(slug: Seq<char>) -> Seq<char> {
    let n = slug.len();
    if n >= 3 && slug[n - 3] == '.' && slug[n - 2] == 'm' && slug[n - 1] == 'd' {
        slug.subrange(0, n - 3)
    } else {
        slug
    }
}

/// The URL that deletes the metadata rows of a slug.
pub open spec fn row_url(cfg: Config, slug: Seq<char>) -> Seq<char> {
    table_url(cfg) + "?slug=eq."@ + row_key(slug)
}

/// Whether `r` stores `doc` as `{bucket}/{slug}.md`: a POST of a multipart
/// form whose `file` field holds the whole text.
pub open spec fn is_upload_request(cfg: Config, slug: Seq<char>, doc: Seq<char>, r: HttpRequest) -> bool {
    &&& r.method == Method::Post
    &&& r.url@ == object_url(cfg, slug + ".md"@)
    &&& r.headers@.len() == 2
    &&& header_is(r.headers@[0], "Authorization"@, bearer_of(cfg))
    &&& header_is(r.headers@[1], "Accept"@, "application/json"@)
    &&& r.body matches Body::Multipart { field, file_name, mime, text }
    &&& field@ == "file"@
    &&& file_name@ == slug + ".md"@
    &&& mime@ == "text/markdown"@
    &&& text@ == doc
}

/// Whether `r` upserts the metadata row of a post: a POST of the JSON row to
/// the table, merging with a row that has the same slug.
pub open spec fn is_upsert_request(cfg: Config, slug: Seq<char>, fm: FrontMatter, r: HttpRequest) -> bool {
    &&& r.method == Method::Post
    &&& r.url@ == table_url(cfg)
    &&& r.headers@.len() == 4
    &&& header_is(r.headers@[0], "Authorization"@, bearer_of(cfg))
    &&& header_is(r.headers@[1], "apikey"@, cfg.key@)
    &&& header_is(r.headers@[2], "Prefer"@, "resolution=merge-duplicates"@)
    &&& header_is(r.headers@[3], "Content-Type"@, "application/json"@)
    &&& r.body matches Body::Json(p)
    &&& p@ == row_json(slug, fm)
}

/// Whether `r` deletes the stored object `{bucket}/{slug}`.
pub open spec fn is_object_delete_request(cfg: Config, slug: Seq<char>, r: HttpRequest) -> bool {
    &&& r.method == Method::Delete
    &&& r.url@ == object_url(cfg, slug)
    &&& auth_accept_headers(cfg, r.headers@)
    &&& r.body is Empty
}

/// Whether `r` deletes the metadata rows of `slug` less one trailing `.md`.
pub open spec fn is_row_delete_request(cfg: Config, slug: Seq<char>, r: HttpRequest) -> bool {
    &&& r.method == Method::Delete
    &&& r.url@ == row_url(cfg, slug)
    &&& auth_accept_headers(cfg, r.headers@)
    &&& r.body is Empty
}

/// A configuration from its settings; the URL and the credential are required,
/// the bucket defaults to `blog` and the table to `posts`.
pub fn config_from(
    url: Option<String>,
    key: Option<String>,
    bucket: Option<String>,
    table: Option<String>,
) -> (r: Result<Config, ConfigError>)
    ensures
        url is None ==> r == Err::<Config, ConfigError>(ConfigError::MissingUrl),
        url is Some && key is None ==> r == Err::<Config, ConfigError>(ConfigError::MissingKey),
        url is Some && key is Some ==> {
            &&& r matches Ok(c)
            &&& c.url@ == url->0@
            &&& c.key@ == key->0@
            &&& c.bucket@ == (match bucket {
                Some(b) => b@,
                None => "blog"@,
            })
            &&& c.table@ == (match table {
                Some(t) => t@,
                None => "posts"@,
            })
        },
{
    let url = match url {
        Some(u) => u,
        None => return Err(ConfigError::MissingUrl),
    };
    let key = match key {
        Some(k) => k,
        None => return Err(ConfigError::MissingKey),
    };
    let bucket = match bucket {
        Some(b) => b,
        None => String::from_str("blog"),
    };
    let table = match table {
        Some(t) => t,
        None => String::from_str("posts"),
    };
    Ok(Config { url, key, bucket, table })
}

/// A required setting that is missing.
#[derive(Debug, Clone, Copy, PartialEq, Eq, Structural)]
pub enum ConfigError {
    MissingUrl,
    MissingKey,
}

fn bearer(cfg: &Config) -> (r: String)
    ensures
        r@ == bearer_of(*cfg),
{
    let mut r = String::from_str("Bearer ");
    r.append(cfg.key.as_str());
    r
}

fn object_url_of(cfg: &Config, key: &str) -> (r: String)
    ensures
        r@ == object_url(*cfg, key@),
{
    let mut r = strip_slashes(cfg.url.as_str());
    r.append("/storage/v1/object/");
    r.append(cfg.bucket.as_str());
    r.append("/");
    r.append(key);
    r
}

fn table_url_of(cfg: &Config) -> (r: String)
    ensures
        r@ == table_url(*cfg),
{
    let mut r = strip_slashes(cfg.url.as_str());
    r.append("/rest/v1/");
    r.append(cfg.table.as_str());
    r
}

fn auth_accept(cfg: &Config) -> (r: Vec<(String, String)>)
    ensures
        auth_accept_headers(*cfg, r@),
{
    vec![
        (String::from_str("Authorization"), bearer(cfg)),
        (String::from_str("apikey"), cfg.key.clone()),
        (String::from_str("Accept"), String::from_str("application/json")),
    ]
}

/// The tags as JSON texts separated by commas.
fn tags_text(tags: &Vec<String>) -> (r: String)
    ensures
        r@ == tags_json(tags@),
{
    let mut out = String::new();
    let mut i: usize = 0;
    while i < tags.len()
        invariant
            i <= tags@.len(),
            out@ == tags_json(tags@.subrange(0, i as int)),
        decreases tags@.len() - i,
    {
        assert(tags@.subrange(0, i + 1).drop_last() =~= tags@.subrange(0, i as int));
        if i > 0 {
            out.append(",");
        }
        let q = json_quote(tags[i].as_str());
        out.append(q.as_str());
        proof {
            if i == 0 {
                assert(out@ =~= json_quoted(tags@[0]@));
            }
        }
        i = i + 1;
    }
    assert(tags@.subrange(0, tags@.len() as int) =~= tags@);
    out
}

/// The JSON array holding the metadata row `{slug, title, summary, tags}` of
/// a post, with an absent summary written as empty and absent tags as none.
pub fn row_payload(slug: &str, fm: &FrontMatter) -> (r: String)
    ensures
        r@ == row_json(slug@, *fm),
{
    let mut r = String::from_str("[{\"slug\":");
    r.append(json_quote(slug).as_str());
    r.append(",\"title\":");
    r.append(json_quote(fm.title.as_str()).as_str());
    r.append(",\"summary\":");
    let summary = match &fm.summary {
        Some(s) => json_quote(s.as_str()),
        None => json_quote(""),
    };
    r.append(summary.as_str());
    r.append(",\"tags\":[");
    let tags = match &fm.tags {
        Some(t) => tags_text(t),
        None => String::new(),
    };
    r.append(tags.as_str());
    r.append("]}]");
    r
}

/// The request that stores a document as `{bucket}/{slug}.md`: a multipart
/// form whose `file` field holds the whole text.
pub fn upload_request(cfg: &Config, slug: &str, doc: &str) -> (r: HttpRequest)
    ensures
        is_upload_request(*cfg, slug@, doc@, r),
{
    let mut name = String::from_str(slug);
    name.append(".md");
    let url = object_url_of(cfg, name.as_str());
    let headers = vec![
        (String::from_str("Authorization"), bearer(cfg)),
        (String::from_str("Accept"), String::from_str("application/json")),
    ];
    let body = Body::Multipart {
        field: String::from_str("file"),
        file_name: name,
        mime: String::from_str("text/markdown"),
        text: String::from_str(doc),
    };
    HttpRequest { method: Method::Post, url, headers, body }
}

/// The request that upserts the metadata row of a post, merging with a row
/// that has the same slug.
pub fn upsert_request(cfg: &Config, slug: &str, fm: &FrontMatter) -> (r: HttpRequest)
    ensures
        is_upsert_request(*cfg, slug@, *fm, r),
{
    let url = table_url_of(cfg);
    let headers = vec![
        (String::from_str("Authorization"), bearer(cfg)),
        (String::from_str("apikey"), cfg.key.clone()),
        (String::from_str("Prefer"), String::from_str("resolution=merge-duplicates")),
        (String::from_str("Content-Type"), String::from_str("application/json")),
    ];
    HttpRequest { method: Method::Post, url, headers, body: Body::Json(row_payload(slug, fm)) }
}

/// The slug less one trailing `.md`.
pub fn strip_md(slug: &str) -> (r: String)
    ensures
        r@ == row_key(slug@),
{
    let n = slug.unicode_len();
    if n >= 3 && slug.get_char(n - 3) == '.' && slug.get_char(n - 2) == 'm' && slug.get_char(
        n - 1,
    ) == 'd' {
        String::from_str(slug.substring_char(0, n - 3))
    } else {
        assert(slug@.subrange(0, n as int) =~= slug@);
        String::from_str(slug)
    }
}

/// The metadata filter of a slug that does not end in `.md` is the slug
/// itself, with or without `.md` appended; the object key keeps what it is given.
pub proof fn law_row_key_ignores_md(slug: Seq<char>)
    requires
        !(slug.len() >= 3 && slug[slug.len() - 3] == '.' && slug[slug.len() - 2] == 'm'
            && slug[slug.len() - 1] == 'd'),
    ensures
        row_key(slug) == slug,
        row_key(slug + ".md"@) == slug,
{
    reveal_strlit(".md");
    let t = slug + ".md"@;
    assert(t[t.len() - 3] == '.' && t[t.len() - 2] == 'm' && t[t.len() - 1] == 'd');
    assert(t.subrange(0, t.len() - 3) =~= slug);
}

/// The request that deletes the stored object `{bucket}/{slug}`.
pub fn delete_object_request(cfg: &Config, slug: &str) -> (r: HttpRequest)
    ensures
        is_object_delete_request(*cfg, slug@, r),
{
    HttpRequest {
        method: Method::Delete,
        url: object_url_of(cfg, slug),
        headers: auth_accept(cfg),
        body: Body::Empty,
    }
}

/// The request that deletes the metadata rows whose slug is `slug` less one
/// trailing `.md`.
pub fn delete_row_request(cfg: &Config, slug: &str) -> (r: HttpRequest)
    ensures
        is_row_delete_request(*cfg, slug@, r),
{
    let mut url = table_url_of(cfg);
    url.append("?slug=eq.");
    url.append(strip_md(slug).as_str());
    HttpRequest { method: Method::Delete, url, headers: auth_accept(cfg), body: Body::Empty }
}

} // verus!
