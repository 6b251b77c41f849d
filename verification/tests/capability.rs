use scriptvm::context::Context;
use scriptvm::fetch::{request_of, response_defaults, Client, Fetch, Request};
use scriptvm::machine::{mailbox, Command};
use scriptvm::promise::{Resolver, Settlement};

#[test]
fn request_defaults_to_get_and_empty_url() {
    let r = request_of(None, None);
    assert_eq!(r.method, "GET");
    assert_eq!(r.url, "");

    let r = request_of(Some("https://example.test/a".to_owned()), Some("POST".to_owned()));
    assert_eq!(r.method, "POST");
    assert_eq!(r.url, "https://example.test/a");
}

#[test]
fn response_defaults_to_status_200_and_empty_body() {
    let r = response_defaults(None, None);
    assert_eq!(r.status, 200);
    assert_eq!(r.body, "");
    let r = response_defaults(Some("{\"a\":1}".to_owned()), Some(404));
    assert_eq!(r.status, 404);
    assert_eq!(r.body, "{\"a\":1}");
}

struct EchoClient;

impl Client<serde_json::Value> for EchoClient {
    fn fetch(&self, request: Request, resolver: Resolver<serde_json::Value>) {
        // Completes immediately with the requested url, standing in for
        // asynchronous work dispatched elsewhere.
        let _ = resolver.resolve(serde_json::Value::String(request.url));
    }
}

#[test]
fn capability_completion_reaches_its_own_entry() {
    let (handle, receiver) = mailbox::<serde_json::Value>();
    let mut ctx: Context<serde_json::Value, u32> = Context::new(handle);

    let capability = Fetch::new(EchoClient);
    let resolver = ctx.insert(31);
    capability.fetch(
        Request { method: "GET".to_owned(), url: "https://example.test".to_owned() },
        resolver,
    );

    match receiver.recv().unwrap() {
        Command::Done(p) => match ctx.done(p) {
            Some((31, Settlement::Fulfill(v))) => {
                assert_eq!(v, serde_json::Value::String("https://example.test".to_owned()));
            },
            _ => panic!("wrong settlement"),
        },
        _ => panic!("expected a Done command"),
    }
}
