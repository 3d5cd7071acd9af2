use webextract::select_on_document;
use webextract::Attr;
use webextract::Client;
use webextract::IClient;
use webextract::Response;
use webextract::ResponseErr;

struct FakeBackend {
    status: u16,
    body: String,
}

#[derive(Debug)]
struct FakeErr(String);

impl ResponseErr for FakeErr {}

impl IClient for FakeBackend {
    type Error = FakeErr;

    fn get(&self, _path: &str) -> Result<Response, FakeErr> {
        Ok(Response { status: self.status, body: self.body.clone() })
    }

    fn add_cookie(&mut self, _cookie: &str, _url: &str) {}
}

struct FailingBackend;

impl IClient for FailingBackend {
    type Error = FakeErr;

    fn get(&self, path: &str) -> Result<Response, FakeErr> {
        Err(FakeErr(format!("dns resolution failed for {path}")))
    }

    fn add_cookie(&mut self, _cookie: &str, _url: &str) {}
}

#[test]
fn fetch_and_extract_viewport() {
    let backend = FakeBackend {
        status: 200,
        body: "<meta name=\"viewport\" content=\"width=device-width, initial-scale=1\">"
            .to_string(),
    };
    let client = Client::new(backend);
    let Response { status, body } = client.get("https://example.com/").unwrap();

    assert_eq!(200, status);
    assert_eq!(
        select_on_document(&body, "meta[name~=viewport]", Attr::Content),
        Some("width=device-width, initial-scale=1".to_owned())
    );
}

#[test]
fn body_is_forwarded_unchanged() {
    let payload = "<p>exact payload, no re-encoding</p>";
    let client = Client::new(FakeBackend { status: 404, body: payload.to_string() });
    let resp = client.get("https://example.com/missing").unwrap();

    assert_eq!(404, resp.status);
    assert_eq!(payload, resp.body);
}

#[test]
fn failing_fetch_returns_error() {
    let client = Client::new(FailingBackend);
    let result = client.get("https://nonexistent.invalid/");

    assert!(result.is_err());
    let message = format!("{:?}", result.unwrap_err());
    assert!(message.contains("dns resolution failed"));
}

#[test]
fn add_coockie_leaves_wrapper_unchanged() {
    let mut client = Client::new(FakeBackend { status: 204, body: String::new() });
    client.add_coockie("session=abc");
    let resp = client.get("https://example.com/").unwrap();

    assert_eq!(204, resp.status);
    assert_eq!("", resp.body);
}
