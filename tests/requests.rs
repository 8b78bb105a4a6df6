use releases::assets::UploadRequest;
use releases::error::{check_status, ReleasesError};
use releases::releases::{MakeLatest, ReleasesHandler};
use releases::request::{Field, Method, Param, Request, Value};
use releases::text::{push_decimal, remove_all};

fn handler() -> ReleasesHandler {
    ReleasesHandler::new("owner", "repo")
}

fn keys(fields: &[Field]) -> Vec<&'static str> {
    fields.iter().map(|f| f.param.key()).collect()
}

fn text(fields: &[Field], p: Param) -> Option<String> {
    fields.iter().find(|f| f.param == p).and_then(|f| match &f.value {
        Value::Text(s) => Some(s.clone()),
        _ => None,
    })
}

fn flag(fields: &[Field], p: Param) -> Option<bool> {
    fields.iter().find(|f| f.param == p).and_then(|f| match &f.value {
        Value::Flag(b) => Some(*b),
        _ => None,
    })
}

fn number(fields: &[Field], p: Param) -> Option<u64> {
    fields.iter().find(|f| f.param == p).and_then(|f| match &f.value {
        Value::Number(n) => Some(*n),
        _ => None,
    })
}

fn body(r: &Request) -> &Vec<Field> {
    r.body.as_ref().expect("request has a body")
}

#[test]
fn make_latest_tokens() {
    assert_eq!(MakeLatest::True.as_str(), "true");
    assert_eq!(MakeLatest::False.as_str(), "false");
    assert_eq!(MakeLatest::Legacy.as_str(), "legacy");
}

#[test]
fn make_latest_is_sent_as_its_token() {
    let h = handler();
    let r = h.create("v1").make_latest(MakeLatest::Legacy).request();
    assert_eq!(text(body(&r), Param::MakeLatest).as_deref(), Some("legacy"));
}

#[test]
fn list_without_pagination_has_empty_query() {
    let h = handler();
    let r = h.list().request();
    assert_eq!(r.method, Method::Get);
    assert_eq!(r.path, "/owner/repo/releases");
    assert!(r.query.is_empty());
    assert!(r.body.is_none());
}

#[test]
fn list_with_pagination() {
    let h = handler();
    let r = h.list().per_page(100u8).page(5u32).request();
    assert_eq!(keys(&r.query), vec!["per_page", "page"]);
    assert_eq!(number(&r.query, Param::PerPage), Some(100));
    assert_eq!(number(&r.query, Param::Page), Some(5));
    let r = h.list().page(2u32).request();
    assert_eq!(keys(&r.query), vec!["page"]);
}

#[test]
fn assets_without_pagination_has_empty_query() {
    let h = handler();
    let r = h.assets(42).request();
    assert_eq!(r.method, Method::Get);
    assert_eq!(r.path, "/owner/repo/releases/42/assets");
    assert!(r.query.is_empty());
}

#[test]
fn assets_with_pagination() {
    let h = handler();
    let r = h.assets(7).per_page(30u8).request();
    assert_eq!(keys(&r.query), vec!["per_page"]);
    assert_eq!(number(&r.query, Param::PerPage), Some(30));
}

#[test]
fn create_with_only_tag() {
    let h = handler();
    let r = h.create("v1.0.0").request();
    assert_eq!(r.method, Method::Post);
    assert_eq!(r.path, "/owner/repo/releases");
    assert_eq!(keys(body(&r)), vec!["tag_name"]);
    assert_eq!(text(body(&r), Param::TagName).as_deref(), Some("v1.0.0"));
}

#[test]
fn create_with_every_field() {
    let h = handler();
    let r = h
        .create("v1.0.0")
        .target_commitish("main")
        .name("Version 1.0.0")
        .body("Announcing 1.0.0!")
        .draft(false)
        .prerelease(true)
        .make_latest(MakeLatest::True)
        .request();
    let b = body(&r);
    assert_eq!(
        keys(b),
        vec!["tag_name", "target_commitish", "name", "body", "draft", "prerelease", "make_latest"]
    );
    assert_eq!(text(b, Param::TargetCommitish).as_deref(), Some("main"));
    assert_eq!(text(b, Param::Name).as_deref(), Some("Version 1.0.0"));
    assert_eq!(text(b, Param::Body).as_deref(), Some("Announcing 1.0.0!"));
    assert_eq!(flag(b, Param::Draft), Some(false));
    assert_eq!(flag(b, Param::Prerelease), Some(true));
    assert_eq!(text(b, Param::MakeLatest).as_deref(), Some("true"));
}

#[test]
fn create_with_some_fields() {
    let h = handler();
    let r = h.create("v2").name("Two").draft(true).request();
    assert_eq!(keys(body(&r)), vec!["tag_name", "name", "draft"]);
}

#[test]
fn empty_update_is_patch_with_empty_body() {
    let h = handler();
    let r = h.update(17).request();
    assert_eq!(r.method, Method::Patch);
    assert_eq!(r.path, "/owner/repo/releases/17");
    assert!(r.query.is_empty());
    assert!(body(&r).is_empty());
}

#[test]
fn update_sends_only_what_was_set() {
    let h = handler();
    let r = h.update(9).tag_name("v9").prerelease(false).request();
    assert_eq!(keys(body(&r)), vec!["tag_name", "prerelease"]);
    assert_eq!(text(body(&r), Param::TagName).as_deref(), Some("v9"));
    assert_eq!(flag(body(&r), Param::Prerelease), Some(false));
}

#[test]
fn generate_notes_request() {
    let h = handler();
    let r = h.generate_release_notes("v1.1").request();
    assert_eq!(r.method, Method::Post);
    assert_eq!(r.path, "/owner/repo/releases/generate-notes");
    assert_eq!(keys(body(&r)), vec!["tag_name"]);
    let r = h
        .generate_release_notes("v1.1")
        .previous_tag_name("v1.0")
        .configuration_file_path(".github/release.yml")
        .request();
    assert_eq!(keys(body(&r)), vec!["tag_name", "previous_tag_name", "configuration_file_path"]);
    assert_eq!(text(body(&r), Param::PreviousTagName).as_deref(), Some("v1.0"));
}

#[test]
fn single_release_requests() {
    let h = handler();
    let r = h.get_latest_request();
    assert_eq!((r.method, r.path.as_str()), (Method::Get, "/owner/repo/releases/latest"));
    let r = h.get_by_tag_request("v3.1");
    assert_eq!((r.method, r.path.as_str()), (Method::Get, "/owner/repo/releases/tags/v3.1"));
    let r = h.get_request(0);
    assert_eq!((r.method, r.path.as_str()), (Method::Get, "/owner/repo/releases/0"));
    let r = h.delete_request(18446744073709551615);
    assert_eq!(
        (r.method, r.path.as_str()),
        (Method::Delete, "/owner/repo/releases/18446744073709551615")
    );
    assert!(r.query.is_empty() && r.body.is_none());
}

#[test]
fn delete_outcome() {
    assert!(check_status(204, String::new()).is_ok());
    assert!(check_status(200, String::new()).is_ok());
    match check_status(404, "Not Found".to_string()) {
        Err(ReleasesError::Remote { status, message }) => {
            assert_eq!(status, 404);
            assert_eq!(message, "Not Found");
        }
        _ => panic!("expected a remote error"),
    }
    assert!(check_status(300, String::new()).is_err());
    assert!(check_status(199, String::new()).is_err());
}

fn upload(label: Option<&str>, body: Vec<u8>, template: &str) -> Result<UploadRequest, ReleasesError> {
    let h = handler();
    let b = h.upload_asset(5, "a.tar.gz", body);
    let b = match label {
        Some(l) => b.label(l),
        None => b,
    };
    b.after_fetch(Ok(template.to_string()))
}

#[test]
fn upload_target_without_label() {
    let u = upload(None, vec![1, 2, 3], "https://host/upload{?name,label}").unwrap();
    assert_eq!(u.target, "https://host/upload?name=a.tar.gz");
    assert_eq!(u.uri.to_string(), "https://host/upload?name=a.tar.gz");
}

#[test]
fn upload_target_with_label() {
    let u = upload(Some("L"), vec![1], "https://host/upload{?name,label}").unwrap();
    assert_eq!(u.target, "https://host/upload?name=a.tar.gz&label=L");
}

#[test]
fn upload_template_without_placeholder_is_kept() {
    let u = upload(None, vec![], "https://host/up").unwrap();
    assert_eq!(u.target, "https://host/up?name=a.tar.gz");
}

#[test]
fn upload_headers_and_length() {
    let u = upload(None, vec![0, 255, 10, 13, 7], "https://host/upload{?name,label}").unwrap();
    assert_eq!(u.content_type, "application/octet-stream");
    assert_eq!(u.content_length, 5);
    assert_eq!(u.body, vec![0, 255, 10, 13, 7]);
    let u = upload(None, vec![], "https://host/upload{?name,label}").unwrap();
    assert_eq!(u.content_length, 0);
    assert!(u.body.is_empty());
}

#[test]
fn upload_stops_when_fetch_fails() {
    let h = handler();
    let b = h.upload_asset(5, "a.tar.gz", vec![1, 2]);
    let r = b.after_fetch(Err(ReleasesError::Remote { status: 404, message: "Not Found".to_string() }));
    match r {
        Err(ReleasesError::Remote { status, .. }) => assert_eq!(status, 404),
        _ => panic!("expected the fetch error"),
    }
}

#[test]
fn upload_fetches_the_release_first() {
    let h = handler();
    let b = h.upload_asset(31, "x.zip", vec![]);
    let r = b.release_request();
    assert_eq!((r.method, r.path.as_str()), (Method::Get, "/owner/repo/releases/31"));
}

#[test]
fn upload_to_malformed_target_fails_locally() {
    match upload(Some("a b"), vec![1], "https://host/upload{?name,label}") {
        Err(ReleasesError::UriConstruction { target }) => {
            assert_eq!(target, "https://host/upload?name=a.tar.gz&label=a b");
        }
        _ => panic!("expected a URI construction error"),
    }
}

#[test]
fn removes_every_placeholder() {
    assert_eq!(remove_all("a{?name,label}b{?name,label}", "{?name,label}"), "ab");
    assert_eq!(remove_all("aaa", "aa"), "a");
    assert_eq!(remove_all("", "x"), "");
    assert_eq!(remove_all("xyz", "xyz"), "");
}

#[test]
fn decimal_notation() {
    let mut s = String::from("n=");
    push_decimal(&mut s, 0);
    assert_eq!(s, "n=0");
    let mut s = String::new();
    push_decimal(&mut s, 1234567890);
    assert_eq!(s, "1234567890");
}

#[test]
fn parameter_keys() {
    assert_eq!(Param::ConfigurationFilePath.key(), "configuration_file_path");
    assert_eq!(Param::PreviousTagName.key(), "previous_tag_name");
    assert_eq!(Param::PerPage.key(), "per_page");
}
