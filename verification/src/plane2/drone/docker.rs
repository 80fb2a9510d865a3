//! How a backend's container is described to Docker: its labels, environment,
//! port and limits, and how its port is read back.
use crate::names::BackendName;
use crate::plane2::types::ExecutorConfig;
use crate::text::{chars_of, decimal, parse_u16, parse_u16_spec, push_decimal, push_str, str_eq};
use crate::types::{push_signed_decimal, signed_decimal};
use vstd::prelude::*;
use vstd::string::*;

verus! {

/// Port inside the container to expose.
pub const CONTAINER_PORT: u16 = 8080;

/// The label that marks a container as a backend's, with the backend's name as its value.
pub const PLANE_DOCKER_LABEL: &'static str = "dev.plane.backend";

/// The container's labels: the backend's name under `PLANE_DOCKER_LABEL`.
pub fn create_labels(backend_id: &BackendName) -> (r: Vec<(String, String)>)
    ensures
        r@.len() == 1,
        r@[0].0@ == PLANE_DOCKER_LABEL@,
        r@[0].1@ == backend_id@,
{
    let mut labels: Vec<(String, String)> = Vec::new();
    labels.push((PLANE_DOCKER_LABEL.to_owned(), backend_id.as_str().to_owned()));
    labels
}

/// The key Docker gives the container's port: `8080/tcp`.
pub open spec fn port_key_spec() -> Seq<char> {
    decimal(CONTAINER_PORT as nat) + "/tcp"@
}

/// The key Docker gives the container's port: `8080/tcp`.
pub fn container_port_key() -> (r: String)
    ensures
        r@ == port_key_spec(),
{
    proof {
        reveal_strlit("/tcp");
    }
    let mut s = String::new();
    push_decimal(&mut s, CONTAINER_PORT as u64);
    push_str(&mut s, "/tcp");
    s
}

/// The environment the container gets, as name and value: the configured
/// variables, with `PORT` set to the container port and `PLANE_BACKEND_ID` to
/// the backend's name (each replacing a configured variable of that name).
pub open spec fn container_env_spec(env: Seq<(Seq<char>, Seq<char>)>, backend: Seq<char>) -> Seq<
    (Seq<char>, Seq<char>),
> {
    env.filter(kept_var()).push(
        ("PORT"@, decimal(CONTAINER_PORT as nat)),
    ).push(("PLANE_BACKEND_ID"@, backend))
}

pub open spec fn env_view(env: Seq<(String, String)>) -> Seq<(Seq<char>, Seq<char>)> {
    env.map_values(|p: (String, String)| (p.0@, p.1@))
}

/// `name=value`, as Docker takes an environment variable.
pub open spec fn env_entry(p: (Seq<char>, Seq<char>)) -> Seq<char> {
    p.0 + seq!['='] + p.1
}

pub open spec fn kept_var() -> spec_fn((Seq<char>, Seq<char>)) -> bool {
    |p: (Seq<char>, Seq<char>)| p.0 != "PORT"@ && p.0 != "PLANE_BACKEND_ID"@
}

/// The container's environment, each variable as `name=value`, as
/// `container_env_spec` gives them.
pub fn container_env(env: &Vec<(String, String)>, backend_id: &BackendName) -> (r: Vec<String>)
    ensures
        r@.map_values(|s: String| s@) == container_env_spec(env_view(env@), backend_id@).map_values(
            |p: (Seq<char>, Seq<char>)| env_entry(p),
        ),
{
    proof {
        reveal_strlit("PORT");
        reveal_strlit("PLANE_BACKEND_ID");
    }
    let ghost ev = env_view(env@);
    let mut out: Vec<String> = Vec::new();
    let mut i: usize = 0;
    while i < env.len()
        invariant
            i <= env@.len(),
            ev == env_view(env@),
            out@.map_values(|s: String| s@) == ev.take(i as int).filter(kept_var()).map_values(
                |p: (Seq<char>, Seq<char>)| env_entry(p),
            ),
        decreases env@.len() - i,
    {
        let name = env[i].0.as_str();
        let value = env[i].1.as_str();
        proof {
            assert(ev.take(i + 1) =~= ev.take(i as int).push(ev[i as int]));
            ev.take(i as int).lemma_filter_push(ev[i as int], kept_var());
        }
        if !str_eq(name, "PORT") && !str_eq(name, "PLANE_BACKEND_ID") {
            let mut entry = name.to_owned();
            push_str(&mut entry, "=");
            push_str(&mut entry, value);
            let ghost before = out@;
            out.push(entry);
            proof {
                reveal_strlit("=");
                assert("="@ =~= seq!['=']);
                assert(entry@ =~= env_entry(ev[i as int]));
                assert(out@.map_values(|s: String| s@) =~= before.map_values(|s: String| s@).push(
                    env_entry(ev[i as int]),
                ));
            }
        }
        i = i + 1;
    }
    proof {
        assert(ev.take(ev.len() as int) =~= ev);
    }
    let mut port = "PORT=".to_owned();
    push_decimal(&mut port, CONTAINER_PORT as u64);
    let mut id = "PLANE_BACKEND_ID=".to_owned();
    push_str(&mut id, backend_id.as_str());
    let ghost before = out@;
    out.push(port);
    out.push(id);
    proof {
        reveal_strlit("PORT=");
        reveal_strlit("PLANE_BACKEND_ID=");
        assert("PORT="@ =~= "PORT"@ + seq!['=']);
        assert("PLANE_BACKEND_ID="@ =~= "PLANE_BACKEND_ID"@ + seq!['=']);
        assert(port@ =~= env_entry(("PORT"@, decimal(CONTAINER_PORT as nat))));
        assert(id@ =~= env_entry(("PLANE_BACKEND_ID"@, backend_id@)));
        let kept = ev.filter(kept_var());
        assert(before.map_values(|s: String| s@) == kept.map_values(|p: (Seq<char>, Seq<char>)| env_entry(p)));
        assert(out@.map_values(|s: String| s@) =~= before.map_values(|s: String| s@).push(port@).push(id@));
        assert(kept.push(("PORT"@, decimal(CONTAINER_PORT as nat))).push(("PLANE_BACKEND_ID"@, backend_id@)).map_values(
            |p: (Seq<char>, Seq<char>)| env_entry(p),
        ) =~= kept.map_values(|p: (Seq<char>, Seq<char>)| env_entry(p)).push(port@).push(id@));
        assert(out@.map_values(|s: String| s@) =~= kept.push(("PORT"@, decimal(CONTAINER_PORT as nat))).push(
            ("PLANE_BACKEND_ID"@, backend_id@),
        ).map_values(|p: (Seq<char>, Seq<char>)| env_entry(p)));
    }
    out
}

/// The container's CPU-time limit in whole minutes, from a limit in seconds.
pub fn cpu_ulimit_minutes(limit_secs: u64) -> (r: u64)
    ensures
        r == limit_secs / 60,
{
    limit_secs / 60
}

/// The container's disk limit, as Docker's `size` storage option takes it.
pub fn storage_size(limit_bytes: i64) -> (r: String)
    ensures
        r@ == signed_decimal(limit_bytes as int),
{
    let mut s = String::new();
    push_signed_decimal(&mut s, limit_bytes);
    s
}

/// The port Docker bound for the container: the host port of the first binding,
/// when it reads as a port number.
pub fn port_from_bindings(bindings: &Vec<Option<String>>) -> (r: Option<u16>)
    ensures
        r == (if bindings@.len() > 0 && bindings@[0] is Some {
            parse_u16_spec(bindings@[0]->0@)
        } else {
            None
        }),
{
    if bindings.len() == 0 {
        return None;
    }
    match &bindings[0] {
        Some(port) => {
            let c = chars_of(port.as_str());
            parse_u16(c.as_slice())
        },
        None => None,
    }
}

/// Whether to pull an image: always when forced, else only when it is missing.
pub fn should_pull(force: bool, exists: bool) -> (r: bool)
    ensures
        r == (force || !exists),
{
    force || !exists
}

} // verus!
