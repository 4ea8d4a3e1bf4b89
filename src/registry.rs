//! The name service controller: services and the hosts that serve them.
//! Each method is a sequence of steps; between two steps its caller runs the
//! database statement that the first step asked for.

use vstd::prelude::*;
use vstd::string::*;

use crate::http::{is_bare, is_json, lookup, ParamMap, Response};
use crate::text::{decimal, push_decimal, push_quoted, quoted};

verus! {

/// Whether `c` is white space to `char::is_whitespace`.
pub uninterp spec fn white_space(c: char) -> bool;

/// Relies on `char::is_whitespace`: the Unicode White_Space property of `c`.
#[verifier::external_body]
fn is_white_space(c: char) -> (r: bool)
    ensures
        r == white_space(c),
{
    c.is_whitespace()
}

/// `s` without its leading white space.
pub open spec fn trim_start(s: Seq<char>) -> Seq<char>
    decreases s.len(),
{
    if s.len() > 0 && white_space(s[0]) {
        trim_start(s.drop_first())
    } else {
        s
    }
}

/// The characters of `s` before its first white space.
pub open spec fn word(s: Seq<char>) -> Seq<char>
    decreases s.len(),
{
    if s.len() == 0 || white_space(s[0]) {
        Seq::empty()
    } else {
        seq![s[0]] + word(s.drop_first())
    }
}

/// The first white-space separated word of `s`.
pub open spec fn first_word(s: Seq<char>) -> Option<Seq<char>> {
    if trim_start(s).len() == 0 {
        None
    } else {
        Some(word(trim_start(s)))
    }
}

/// The first white-space separated word of `s`.
pub fn first_word_of(s: &str) -> (r: Option<String>)
    ensures
        r matches Some(w) ==> first_word(s@) == Some(w@),
        r is None ==> first_word(s@) is None,
{
    let n = s.unicode_len();
    let mut i: usize = 0;
    proof {
        assert(s@.skip(0) =~= s@);
    }
    while i < n && is_white_space(s.get_char(i))
        invariant
            n == s@.len(),
            i <= n,
            trim_start(s@) == trim_start(s@.skip(i as int)),
        decreases n - i,
    {
        proof {
            assert(s@.skip(i as int).drop_first() =~= s@.skip(i + 1));
        }
        i = i + 1;
    }
    if i == n {
        proof {
            assert(s@.skip(i as int).len() == 0);
        }
        return None;
    }
    let start = i;
    proof {
        assert(trim_start(s@) == s@.skip(start as int));
    }
    while i < n && !is_white_space(s.get_char(i))
        invariant
            n == s@.len(),
            start < n,
            start <= i <= n,
            word(s@.skip(start as int)) == s@.subrange(start as int, i as int) + word(
                s@.skip(i as int),
            ),
        decreases n - i,
    {
        proof {
            assert(s@.skip(i as int).drop_first() =~= s@.skip(i + 1));
            assert(s@.subrange(start as int, i + 1) =~= s@.subrange(start as int, i as int)
                + seq![s@[i as int]]);
        }
        i = i + 1;
    }
    proof {
        assert(word(s@.skip(i as int)) =~= Seq::<char>::empty());
        assert(word(s@.skip(start as int)) =~= s@.subrange(start as int, i as int));
    }
    Some(s.substring_char(start, i).to_owned())
}

/// The address of one host.
#[derive(Clone, Debug)]
pub struct HostInfo {
    pub ip: String,
    pub port: u16,
}

/// A host with the id the database gave it.
#[derive(Clone, Debug)]
pub struct HostEntry {
    pub id: u64,
    pub host: HostInfo,
}

/// A service and its hosts.
#[derive(Clone, Debug)]
pub struct ServiceInfo {
    pub name: String,
    pub hosts: Vec<HostEntry>,
}

/// A service to register, with its first host.
#[derive(Clone, Debug)]
pub struct NewServiceInfo {
    pub name: String,
    pub host_info: HostInfo,
}

/// A host as a JSON object, its fields flattened next to the id.
pub open spec fn host_json(h: HostEntry) -> Seq<char> {
    "{\"id\":"@ + decimal(h.id as nat) + ",\"ip\":"@ + quoted(h.host.ip@) + ",\"port\":"@ + decimal(
        h.host.port as nat,
    ) + "}"@
}

/// The hosts as JSON objects separated by commas.
pub open spec fn hosts_json(hs: Seq<HostEntry>) -> Seq<char>
    decreases hs.len(),
{
    if hs.len() == 0 {
        Seq::empty()
    } else if hs.len() == 1 {
        host_json(hs[0])
    } else {
        hosts_json(hs.drop_last()) + ","@ + host_json(hs.last())
    }
}

/// A service as a JSON object.
pub open spec fn service_json(name: Seq<char>, hs: Seq<HostEntry>) -> Seq<char> {
    "{\"name\":"@ + quoted(name) + ",\"hosts\":["@ + hosts_json(hs) + "]}"@
}

/// The reply that carries a service under the key `service_info`.
pub open spec fn envelope_json(name: Seq<char>, hs: Seq<HostEntry>) -> Seq<char> {
    "{\"service_info\":"@ + service_json(name, hs) + "}"@
}

/// A new service as a JSON object, its host's fields flattened next to the name.
pub open spec fn new_service_json(s: NewServiceInfo) -> Seq<char> {
    "{\"name\":"@ + quoted(s.name@) + ",\"ip\":"@ + quoted(s.host_info.ip@) + ",\"port\":"@
        + decimal(s.host_info.port as nat) + "}"@
}

fn push_host(out: &mut String, h: &HostEntry)
    ensures
        final(out)@ == old(out)@ + host_json(*h),
{
    let ghost start = out@;
    out.append("{\"id\":");
    push_decimal(out, h.id);
    out.append(",\"ip\":");
    push_quoted(out, h.host.ip.as_str());
    out.append(",\"port\":");
    push_decimal(out, h.host.port as u64);
    out.append("}");
    proof {
        assert(out@ =~= start + host_json(*h));
    }
}

impl ServiceInfo {
    /// The reply that carries this service under the key `service_info`.
    pub fn to_json(&self) -> (r: String)
        ensures
            r@ == envelope_json(self.name@, self.hosts@),
    {
        let mut out = String::from_str("{\"service_info\":");
        out.append("{\"name\":");
        push_quoted(&mut out, self.name.as_str());
        out.append(",\"hosts\":[");
        let ghost head = out@;
        let mut i: usize = 0;
        while i < self.hosts.len()
            invariant
                i <= self.hosts@.len(),
                out@ == head + hosts_json(self.hosts@.subrange(0, i as int)),
            decreases self.hosts@.len() - i,
        {
            let ghost before = self.hosts@.subrange(0, i as int);
            if i > 0 {
                out.append(",");
            }
            push_host(&mut out, &self.hosts[i]);
            proof {
                let now = self.hosts@.subrange(0, i + 1);
                assert(now.drop_last() =~= before);
                if i == 0 {
                    assert(before.len() == 0);
                    assert(out@ =~= head + hosts_json(now));
                } else {
                    assert(out@ =~= head + hosts_json(now));
                }
            }
            i = i + 1;
        }
        out.append("]}");
        out.append("}");
        proof {
            assert(self.hosts@.subrange(0, i as int) =~= self.hosts@);
            assert(out@ =~= envelope_json(self.name@, self.hosts@));
        }
        out
    }
}

impl NewServiceInfo {
    /// The JSON text of the new service.
    pub fn to_json(&self) -> (r: String)
        ensures
            r@ == new_service_json(*self),
    {
        let mut out = String::from_str("{\"name\":");
        push_quoted(&mut out, self.name.as_str());
        out.append(",\"ip\":");
        push_quoted(&mut out, self.host_info.ip.as_str());
        out.append(",\"port\":");
        push_decimal(&mut out, self.host_info.port as u64);
        out.append("}");
        proof {
            assert(out@ =~= new_service_json(*self));
        }
        out
    }
}

} // verus!

verus! {

/// The name of the parameter that identifies a service.
pub open spec fn registry_id() -> Seq<char> {
    "name"@
}

/// The message of a missing parameter.
pub open spec fn missing_parameter_json(parameter: Seq<char>) -> Seq<char> {
    "{\"error\":"@ + quoted("missing parameter: "@ + parameter) + "}"@
}

/// The message of a parameter whose value cannot be used.
pub open spec fn invalid_parameter_json(parameter: Seq<char>, value: Seq<char>) -> Seq<char> {
    "{\"error\":"@ + quoted("invalid parameter "@ + parameter + ": "@ + value) + "}"@
}

/// The message of a body that could not be read.
pub open spec fn invalid_payload_json(cause: Seq<char>) -> Seq<char> {
    "{\"error\":"@ + quoted("Invalid Payload: "@ + cause) + "}"@
}

/// A required parameter is missing.
#[derive(Clone, Debug)]
pub struct MissingParameterError {
    pub parameter: String,
}

impl MissingParameterError {
    /// Status 400 naming the parameter.
    pub fn response(&self) -> (r: Response)
        ensures
            is_json(r, 400, missing_parameter_json(self.parameter@)),
    {
        let mut msg = String::from_str("missing parameter: ");
        msg.append(self.parameter.as_str());
        let mut out = String::from_str("{\"error\":");
        push_quoted(&mut out, msg.as_str());
        out.append("}");
        proof {
            assert(out@ =~= missing_parameter_json(self.parameter@));
        }
        Response::json(400, out)
    }
}

/// A parameter has a value that cannot be used.
#[derive(Clone, Debug)]
pub struct InvalidParameterError {
    pub parameter: String,
    pub value: String,
}

impl InvalidParameterError {
    /// Status 400 naming the parameter and its value.
    pub fn response(&self) -> (r: Response)
        ensures
            is_json(r, 400, invalid_parameter_json(self.parameter@, self.value@)),
    {
        let mut msg = String::from_str("invalid parameter ");
        msg.append(self.parameter.as_str());
        msg.append(": ");
        msg.append(self.value.as_str());
        let mut out = String::from_str("{\"error\":");
        push_quoted(&mut out, msg.as_str());
        out.append("}");
        proof {
            assert(out@ =~= invalid_parameter_json(self.parameter@, self.value@));
        }
        Response::json(400, out)
    }
}

/// A host row as the database returns it.
#[derive(Clone, Debug)]
pub struct HostRow {
    pub id: i64,
    pub ip: String,
    pub port: i16,
}

/// A database statement the controller needs run.
#[derive(Clone, Debug)]
pub enum Statement {
    /// Select the hosts of the named service.
    ListHosts(String),
    /// Insert a service by name; the answer is its id and name.
    InsertService(NewServiceInfo),
    /// Insert a host of the service with this id.
    InsertHost { service_id: i64, service_name: String, ip: String, port: i16 },
}

/// The controller's next step.
#[derive(Clone, Debug)]
pub enum RegistryStep {
    /// The answer is known.
    Respond(Response),
    /// The answer waits on a statement.
    Run(Statement),
}

/// Every row has an id and a port that are not negative.
pub open spec fn rows_fit(rows: Seq<HostRow>) -> bool {
    forall|i: int| 0 <= i < rows.len() ==> rows[i].id >= 0 && rows[i].port >= 0
}

/// The host entry of a row that fits.
pub open spec fn entry_of(row: HostRow) -> HostEntry {
    HostEntry { id: row.id as u64, host: HostInfo { ip: row.ip, port: row.port as u16 } }
}

/// Answers requests on services; the statements are run by its caller.
#[derive(Clone, Copy, Debug)]
pub struct SearchController;

impl SearchController {
    pub fn new() -> (r: SearchController) {
        SearchController
    }

    /// The name of the parameter that identifies a service.
    pub fn id(&self) -> (r: &'static str)
        ensures
            r@ == registry_id(),
    {
        "name"
    }

    /// GET: lists the hosts of the service named by the first word of the
    /// parameter; 400 when the parameter is missing or blank.
    pub fn get(&self, params: &ParamMap) -> (r: RegistryStep)
        ensures
            match lookup(params@, registry_id()) {
                None => r matches RegistryStep::Respond(res) && is_json(
                    res,
                    400,
                    missing_parameter_json(registry_id()),
                ),
                Some(v) => match first_word(v) {
                    None => r matches RegistryStep::Respond(res) && is_json(
                        res,
                        400,
                        invalid_parameter_json(registry_id(), v),
                    ),
                    Some(w) => r matches RegistryStep::Run(Statement::ListHosts(n)) && n@ == w,
                },
            },
    {
        match params.get(self.id()) {
            None => {
                let e = MissingParameterError { parameter: String::from_str(self.id()) };
                RegistryStep::Respond(e.response())
            },
            Some(v) => match first_word_of(v.as_str()) {
                None => {
                    let e = InvalidParameterError {
                        parameter: String::from_str(self.id()),
                        value: v.clone(),
                    };
                    RegistryStep::Respond(e.response())
                },
                Some(w) => RegistryStep::Run(Statement::ListHosts(w)),
            },
        }
    }

    /// The reply that lists the hosts of `name`: 500 with an empty body when
    /// the statement failed or a row does not fit.
    pub fn hosts_listed(&self, name: String, answer: Result<Vec<HostRow>, String>) -> (r: Response)
        ensures
            match answer {
                Err(_) => is_bare(r, 500),
                Ok(rs) => if rows_fit(rs@) {
                    is_json(r, 200, envelope_json(name@, rs@.map_values(|row| entry_of(row))))
                } else {
                    is_bare(r, 500)
                },
            },
    {
        let rows = match answer {
            Err(_) => return Response::bare(500),
            Ok(rows) => rows,
        };
        let mut hosts: Vec<HostEntry> = Vec::new();
        let mut i: usize = 0;
        while i < rows.len()
            invariant
                answer == Ok::<Vec<HostRow>, String>(rows),
                i <= rows@.len(),
                rows_fit(rows@.subrange(0, i as int)),
                hosts@ == rows@.subrange(0, i as int).map_values(|row| entry_of(row)),
            decreases rows@.len() - i,
        {
            let row = &rows[i];
            if row.id < 0 || row.port < 0 {
                proof {
                    assert(!rows_fit(rows@));
                }
                return Response::bare(500);
            }
            hosts.push(
                HostEntry {
                    id: row.id as u64,
                    host: HostInfo { ip: row.ip.clone(), port: row.port as u16 },
                },
            );
            proof {
                assert(rows@.subrange(0, i + 1) =~= rows@.subrange(0, i as int).push(rows@[i as int]));
                assert(hosts@ =~= rows@.subrange(0, i + 1).map_values(|row| entry_of(row)));
            }
            i = i + 1;
        }
        proof {
            assert(rows@.subrange(0, i as int) =~= rows@);
        }
        let info = ServiceInfo { name, hosts };
        Response::json(200, info.to_json())
    }

    /// POST: inserts the service of the payload, or answers 400 when the body
    /// could not be read (`payload` holds why).
    pub fn post(&self, payload: Result<NewServiceInfo, String>) -> (r: RegistryStep)
        ensures
            match payload {
                Err(cause) => r matches RegistryStep::Respond(res) && is_json(
                    res,
                    400,
                    invalid_payload_json(cause@),
                ),
                Ok(info) => r == RegistryStep::Run(Statement::InsertService(info)),
            },
    {
        match payload {
            Err(cause) => {
                let mut msg = String::from_str("Invalid Payload: ");
                msg.append(cause.as_str());
                let mut out = String::from_str("{\"error\":");
                push_quoted(&mut out, msg.as_str());
                out.append("}");
                proof {
                    assert(out@ =~= invalid_payload_json(cause@));
                }
                RegistryStep::Respond(Response::json(400, out))
            },
            Ok(info) => RegistryStep::Run(Statement::InsertService(info)),
        }
    }

    /// After the service was inserted: inserts its host. 500 with an empty
    /// body when the insert failed, the id is negative or the port is past
    /// `i16::MAX`.
    pub fn service_inserted(&self, info: NewServiceInfo, answer: Result<(i64, String), String>) -> (r:
        RegistryStep)
        ensures
            match answer {
                Err(_) => r matches RegistryStep::Respond(res) && is_bare(res, 500),
                Ok((id, name)) => if id < 0 || info.host_info.port > i16::MAX {
                    r matches RegistryStep::Respond(res) && is_bare(res, 500)
                } else {
                    r == RegistryStep::Run(
                        Statement::InsertHost {
                            service_id: id,
                            service_name: name,
                            ip: info.host_info.ip,
                            port: info.host_info.port as i16,
                        },
                    )
                },
            },
    {
        match answer {
            Err(_) => RegistryStep::Respond(Response::bare(500)),
            Ok((id, name)) => {
                if id < 0 || info.host_info.port > 32767 {
                    RegistryStep::Respond(Response::bare(500))
                } else {
                    RegistryStep::Run(
                        Statement::InsertHost {
                            service_id: id,
                            service_name: name,
                            ip: info.host_info.ip,
                            port: info.host_info.port as i16,
                        },
                    )
                }
            },
        }
    }

    /// After the host was inserted: lists the hosts of the service. 500 with
    /// an empty body when the insert failed.
    pub fn host_inserted(&self, service_name: String, answer: Result<(), String>) -> (r:
        RegistryStep)
        ensures
            match answer {
                Err(_) => r matches RegistryStep::Respond(res) && is_bare(res, 500),
                Ok(_) => r == RegistryStep::Run(Statement::ListHosts(service_name)),
            },
    {
        match answer {
            Err(_) => RegistryStep::Respond(Response::bare(500)),
            Ok(_) => RegistryStep::Run(Statement::ListHosts(service_name)),
        }
    }

    /// PUT and DELETE are not offered: 404 with an empty body.
    pub fn not_found(&self) -> (r: Response)
        ensures
            is_bare(r, 404),
    {
        Response::bare(404)
    }
}

} // verus!
