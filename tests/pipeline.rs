use supamarker::frontmatter::FrontMatter;
use supamarker::pipeline::{
    after_object_delete, after_row_delete, after_upload, after_upsert, frame_document,
    prepare_publish, PostError,
};
use supamarker::remote::{
    config_from, delete_object_request, delete_row_request, is_success, row_payload, strip_md,
    upload_request, upsert_request, Body, Config, ConfigError, HttpRequest, Method,
};

fn config() -> Config {
    config_from(
        Some("https://example.supabase.co/".to_string()),
        Some("KEY".to_string()),
        None,
        None,
    )
    .unwrap()
}

fn header(r: &HttpRequest, name: &str) -> Option<String> {
    r.headers.iter().find(|(n, _)| n == name).map(|(_, v)| v.clone())
}

const POST: &str = "---\ntitle: Hello World\ntags: [rust, cli]\n---\n# Body\n";

fn decode(yaml: &str) -> FrontMatter {
    let v: serde_yaml::Value = serde_yaml::from_str(yaml).unwrap();
    let text = |k: &str| v.get(k).and_then(|x| x.as_str()).map(|s| s.to_string());
    let tags = v.get("tags").and_then(|t| t.as_sequence()).map(|s| {
        s.iter().map(|x| x.as_str().unwrap().to_string()).collect::<Vec<String>>()
    });
    FrontMatter { title: text("title").unwrap(), summary: text("summary"), tags, slug: text("slug") }
}

#[test]
fn config_defaults_and_requirements() {
    let c = config();
    assert_eq!(c.bucket, "blog");
    assert_eq!(c.table, "posts");
    assert_eq!(c.key, "KEY");
    let c = config_from(
        Some("u".to_string()),
        Some("k".to_string()),
        Some("media".to_string()),
        Some("articles".to_string()),
    )
    .unwrap();
    assert_eq!(c.bucket, "media");
    assert_eq!(c.table, "articles");
    assert!(matches!(
        config_from(None, Some("k".to_string()), None, None),
        Err(ConfigError::MissingUrl)
    ));
    assert!(matches!(
        config_from(Some("u".to_string()), None, None, None),
        Err(ConfigError::MissingKey)
    ));
}

#[test]
fn success_is_the_2xx_class() {
    assert!(is_success(200));
    assert!(is_success(204));
    assert!(is_success(299));
    assert!(!is_success(199));
    assert!(!is_success(300));
    assert!(!is_success(403));
}

#[test]
fn publish_post_md_scenario() {
    let cfg = config();
    let frame = frame_document(POST).unwrap();
    let fm = decode(&frame.yaml);
    let p = prepare_publish("post.md", fm);
    assert_eq!(p.slug, "post");

    let up = upload_request(&cfg, &p.slug, POST);
    assert_eq!(up.method, Method::Post);
    assert_eq!(up.url, "https://example.supabase.co/storage/v1/object/blog/post.md");
    assert_eq!(header(&up, "Authorization").unwrap(), "Bearer KEY");
    assert_eq!(header(&up, "Accept").unwrap(), "application/json");
    match &up.body {
        Body::Multipart { field, file_name, mime, text } => {
            assert_eq!(field, "file");
            assert_eq!(file_name, "post.md");
            assert_eq!(mime, "text/markdown");
            assert_eq!(text, POST);
        }
        _ => panic!("upload must be multipart"),
    }

    let upsert = after_upload(&cfg, &p, 200, String::new()).unwrap();
    assert_eq!(upsert.method, Method::Post);
    assert_eq!(upsert.url, "https://example.supabase.co/rest/v1/posts");
    assert_eq!(header(&upsert, "apikey").unwrap(), "KEY");
    assert_eq!(header(&upsert, "Prefer").unwrap(), "resolution=merge-duplicates");
    assert_eq!(header(&upsert, "Content-Type").unwrap(), "application/json");
    let payload = match &upsert.body {
        Body::Json(t) => t.clone(),
        _ => panic!("upsert must be JSON"),
    };
    assert_eq!(
        payload,
        "[{\"slug\":\"post\",\"title\":\"Hello World\",\"summary\":\"\",\"tags\":[\"rust\",\"cli\"]}]"
    );
    let v: serde_json::Value = serde_json::from_str(&payload).unwrap();
    assert_eq!(v[0]["slug"], "post");
    assert_eq!(v[0]["title"], "Hello World");
    assert_eq!(v[0]["summary"], "");
    assert_eq!(v[0]["tags"][1], "cli");
    assert!(after_upsert(201, String::new()).is_ok());
}

#[test]
fn failed_upload_stops_before_upsert() {
    let cfg = config();
    let fm = decode(&frame_document(POST).unwrap().yaml);
    let p = prepare_publish("post.md", fm);
    match after_upload(&cfg, &p, 403, "forbidden".to_string()) {
        Err(PostError::StorageUpload { status, body }) => {
            assert_eq!(status, 403);
            assert_eq!(body, "forbidden");
        }
        _ => panic!("a 403 upload must fail without an upsert request"),
    }
}

#[test]
fn failed_upsert_reports_status_and_body() {
    match after_upsert(409, "conflict".to_string()) {
        Err(PostError::MetadataUpsert { status, body }) => {
            assert_eq!(status, 409);
            assert_eq!(body, "conflict");
        }
        _ => panic!("expected a metadata upsert error"),
    }
}

#[test]
fn payload_escapes_and_defaults() {
    let fm = FrontMatter {
        title: "Say \"hi\"".to_string(),
        summary: Some("line\nbreak".to_string()),
        tags: None,
        slug: Some("s".to_string()),
    };
    assert_eq!(
        row_payload("s", &fm),
        "[{\"slug\":\"s\",\"title\":\"Say \\\"hi\\\"\",\"summary\":\"line\\nbreak\",\"tags\":[]}]"
    );
    let r = upsert_request(&config(), "s", &fm);
    assert!(matches!(r.body, Body::Json(_)));
}

#[test]
fn delete_post_scenario() {
    let cfg = config();
    let obj = delete_object_request(&cfg, "post");
    assert_eq!(obj.method, Method::Delete);
    assert_eq!(obj.url, "https://example.supabase.co/storage/v1/object/blog/post");
    assert_eq!(header(&obj, "Authorization").unwrap(), "Bearer KEY");
    assert_eq!(header(&obj, "apikey").unwrap(), "KEY");
    assert_eq!(header(&obj, "Accept").unwrap(), "application/json");
    assert!(matches!(obj.body, Body::Empty));
    let row = after_object_delete(&cfg, "post", 200, String::new()).unwrap();
    assert_eq!(row.method, Method::Delete);
    assert_eq!(row.url, "https://example.supabase.co/rest/v1/posts?slug=eq.post");
    assert!(after_row_delete(204, String::new()).is_ok());
}

#[test]
fn delete_strips_md_only_for_the_row_filter() {
    let cfg = config();
    let obj = delete_object_request(&cfg, "post.md");
    assert_eq!(obj.url, "https://example.supabase.co/storage/v1/object/blog/post.md");
    let row = delete_row_request(&cfg, "post.md");
    assert_eq!(row.url, "https://example.supabase.co/rest/v1/posts?slug=eq.post");
    assert_eq!(strip_md("post.md"), "post");
    assert_eq!(strip_md("post"), "post");
    assert_eq!(strip_md(".md"), "");
}

#[test]
fn failed_deletes_report_status_and_body() {
    let cfg = config();
    match after_object_delete(&cfg, "post", 404, "missing".to_string()) {
        Err(PostError::StorageDelete { status, body }) => {
            assert_eq!(status, 404);
            assert_eq!(body, "missing");
        }
        _ => panic!("expected a storage delete error"),
    }
    match after_row_delete(500, "boom".to_string()) {
        Err(PostError::MetadataDelete { status, body }) => {
            assert_eq!(status, 500);
            assert_eq!(body, "boom");
        }
        _ => panic!("expected a metadata delete error"),
    }
}
