//! A reference capability: a network-fetch surface for scripts. The
//! installation of the script-visible `fetch` function and `Response`
//! constructor is engine glue outside this crate; what stands here is the
//! capability's host side — the client contract, the request a script
//! call denotes, and the defaulting rules for its arguments.

use vstd::prelude::*;
use crate::promise::Resolver;

verus! {

/// One request a script's `fetch` call denotes.
pub struct Request {
    pub method: String,
    pub url: String,
}

/// One response handed back to the script: the capability materializes
/// it as a script-visible object exposing status, json and text members.
/// The status is the bare status code.
pub struct Response {
    pub status: u16,
    pub body: String,
}

/// The transport a host embeds the capability with. `fetch` dispatches
/// the request to asynchronous work elsewhere; the resolver must
/// eventually complete the promise, from whatever thread that work
/// finishes on.
pub trait Client<R>: Send + 'static {
    fn fetch(&self, request: Request, resolver: Resolver<R>);
}

/// The fetch capability: installs a script-visible `fetch` that files a
/// pending promise and hands its resolver to the client.
pub struct Fetch<C> {
    pub client: C,
}

impl<C> Fetch<C> {
    pub fn new(client: C) -> (r: Box<Self>)
        ensures
            r.client == client,
    {
        Box::new(Fetch { client })
    }

    /// Forwards one request to the embedded client.
    pub fn fetch<R>(&self, request: Request, resolver: Resolver<R>) where C: Client<R> {
        self.client.fetch(request, resolver);
    }
}

/// The script-side argument handling of a `fetch(url, options)` call: a
/// non-string url falls back to empty, and a missing or non-string
/// `method` option falls back to GET.
pub fn request_of(url: Option<String>, method: Option<String>) -> (r: Request)
    ensures
        r.url@ == match url {
            Some(u) => u@,
            None => Seq::<char>::empty(),
        },
        r.method@ == match method {
            Some(m) => m@,
            None => "GET"@,
        },
{
    let url = match url {
        Some(u) => u,
        None => String::new(),
    };
    let method = match method {
        Some(m) => m,
        None => "GET".to_owned(),
    };
    Request { method, url }
}

/// The `Response(body, options)` constructor's argument handling: a
/// non-string body falls back to empty, and a missing or non-numeric
/// `status` option falls back to 200.
pub fn response_defaults(body: Option<String>, status: Option<u16>) -> (r: Response)
    ensures
        r.body@ == match body {
            Some(b) => b@,
            None => Seq::<char>::empty(),
        },
        r.status == match status {
            Some(s) => s,
            None => 200u16,
        },
{
    let body = match body {
        Some(b) => b,
        None => String::new(),
    };
    let status = match status {
        Some(s) => s,
        None => 200,
    };
    Response { status, body }
}

} // verus!
