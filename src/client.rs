//! The client side of the name service: where the service is, how its
//! certificate is found, and the requests this client sends it.

use vstd::prelude::*;
use vstd::string::*;
use vstd::utf8::encode_utf8;

use crate::http::{header_views, Header, Method};
use crate::registry::{new_service_json, HostInfo, NewServiceInfo};

verus! {

/// The canonical name of the name service.
pub open spec fn service_name() -> Seq<char> {
    "flair_mtls"@
}

/// Where the end-entity certificate chain of a service lies: under the
/// given root, or `.` when there is none.
pub open spec fn cert_path_of(root: Option<Seq<char>>, name: Seq<char>) -> Seq<char> {
    (match root {
        Some(r) => r,
        None => "."@,
    }) + "/"@ + name + "/rsa/end.chain"@
}

/// A request ready to be sent to another service over mutual TLS.
#[derive(Clone, Debug)]
pub struct OutboundRequest {
    pub method: Method,
    pub addr: String,
    pub path: String,
    pub cert_path: String,
    pub headers: Vec<Header>,
    pub body: Vec<u8>,
}

/// Client for the name service.
#[derive(Clone, Copy, Debug)]
pub struct NameServiceClient;

impl NameServiceClient {
    pub fn new() -> (r: NameServiceClient) {
        NameServiceClient
    }

    /// The canonical name of the service this client talks to.
    pub fn name(&self) -> (r: &'static str)
        ensures
            r@ == service_name(),
    {
        "flair_mtls"
    }

    /// The network address of the service.
    pub fn addr(&self) -> (r: String)
        ensures
            r@ == "localhost:3053"@,
    {
        String::from_str("localhost:3053")
    }

    /// The headers sent with each request.
    pub fn additional_headers(&self) -> (r: Vec<Header>)
        ensures
            header_views(r@) == seq![("host"@, "localhost"@)],
    {
        let mut v: Vec<Header> = Vec::new();
        v.push(Header { name: String::from_str("host"), value: String::from_str("localhost") });
        proof {
            assert(header_views(v@) =~= seq![("host"@, "localhost"@)]);
        }
        v
    }

    /// The certificate chain of the service, under `cert_root` when one is
    /// configured.
    pub fn cert_path(&self, cert_root: Option<&str>) -> (r: String)
        ensures
            r@ == cert_path_of(
                match cert_root {
                    Some(c) => Some(c@),
                    None => None,
                },
                service_name(),
            ),
    {
        let mut out = match cert_root {
            Some(root) => String::from_str(root),
            None => String::from_str("."),
        };
        out.append("/");
        out.append(self.name());
        out.append("/rsa/end.chain");
        out
    }

    fn request(&self, method: Method, path: String, body: String, cert_root: Option<&str>) -> (r:
        OutboundRequest)
        ensures
            r.method == method,
            r.path@ == path@,
            r.body@ == encode_utf8(body@),
            r.addr@ == "localhost:3053"@,
            header_views(r.headers@) == seq![("host"@, "localhost"@)],
            r.cert_path@ == cert_path_of(
                match cert_root {
                    Some(c) => Some(c@),
                    None => None,
                },
                service_name(),
            ),
    {
        OutboundRequest {
            method,
            addr: self.addr(),
            path,
            cert_path: self.cert_path(cert_root),
            headers: self.additional_headers(),
            body: body.as_str().as_bytes_vec(),
        }
    }

    /// The request that looks a service up by name: a GET on
    /// `/1/services/<name>` with a `null` body.
    pub fn lookup(&self, service: &str, cert_root: Option<&str>) -> (r: OutboundRequest)
        ensures
            r.method == Method::Get,
            r.path@ == "/1/services/"@ + service@,
            r.body@ == encode_utf8("null"@),
            r.addr@ == "localhost:3053"@,
            header_views(r.headers@) == seq![("host"@, "localhost"@)],
            r.cert_path@ == cert_path_of(
                match cert_root {
                    Some(c) => Some(c@),
                    None => None,
                },
                service_name(),
            ),
    {
        let mut path = String::from_str("/1/services/");
        path.append(service);
        self.request(Method::Get, path, String::from_str("null"), cert_root)
    }

    /// The request that registers a service with a single host: a POST on
    /// `/1/services` whose body is the new service.
    pub fn create_service_entry(&self, name: String, ip: String, port: u16, cert_root: Option<&str>) -> (r:
        OutboundRequest)
        ensures
            r.method == Method::Post,
            r.path@ == "/1/services"@,
            r.body@ == encode_utf8(
                new_service_json(NewServiceInfo { name, host_info: HostInfo { ip, port } }),
            ),
            r.addr@ == "localhost:3053"@,
            header_views(r.headers@) == seq![("host"@, "localhost"@)],
            r.cert_path@ == cert_path_of(
                match cert_root {
                    Some(c) => Some(c@),
                    None => None,
                },
                service_name(),
            ),
    {
        let info = NewServiceInfo { name, host_info: HostInfo { ip, port } };
        self.request(Method::Post, String::from_str("/1/services"), info.to_json(), cert_root)
    }
}

} // verus!
