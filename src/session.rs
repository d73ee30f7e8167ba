use vstd::prelude::*;
use vstd::string::*;

use crate::error::EcsError;
use crate::identifier::{display_name_of, has_separator, parse_identifier};
use crate::json::{
    decode_optional, lemma_decode_optional, optional_value, optional_view, push_optional_value,
    push_string_literal, string_literal,
};
use crate::model::{ClusterRef, ContainerRef};

verus! {

/// The credentials of an exec session, as the control plane issued them.
#[derive(Debug, Clone, PartialEq, Eq)]
pub struct ExecSession {
    pub session_id: Option<String>,
    pub stream_url: Option<String>,
    pub token_value: Option<String>,
}

/// The plugin's name for the target of a session: `ecs:` and the cluster's display
/// name, the task's display name and the container's runtime id, joined by `_`.
pub open spec fn target_of(cluster: Seq<char>, task: Seq<char>, runtime_id: Seq<char>) -> Seq<char> {
    "ecs:"@ + cluster + "_"@ + task + "_"@ + runtime_id
}

/// Builds the session target from its three parts, with no escaping.
pub fn session_target(cluster: &str, task: &str, runtime_id: &str) -> (r: String)
    ensures
        r@ == target_of(cluster@, task@, runtime_id@),
{
    let mut r = String::from_str("ecs:");
    r.append(cluster);
    r.append("_");
    r.append(task);
    r.append("_");
    r.append(runtime_id);
    r
}

/// The session payload handed to the plugin: a JSON object with the keys
/// `SessionId`, `StreamUrl` and `TokenValue`, an absent value written as `null`.
pub open spec fn session_json(s: ExecSession) -> Seq<char> {
    "{\"SessionId\":"@ + optional_value(s.session_id) + ",\"StreamUrl\":"@
        + optional_value(s.stream_url) + ",\"TokenValue\":"@ + optional_value(s.token_value)
        + "}"@
}

/// Encodes the session payload.
pub fn session_payload(s: &ExecSession) -> (r: String)
    ensures
        r@ == session_json(*s),
{
    let mut r = String::from_str("{\"SessionId\":");
    push_optional_value(&mut r, &s.session_id);
    r.append(",\"StreamUrl\":");
    push_optional_value(&mut r, &s.stream_url);
    r.append(",\"TokenValue\":");
    push_optional_value(&mut r, &s.token_value);
    r.append("}");
    r
}

/// What follows `lit` at the start of `p`; none when `p` does not start with it.
pub open spec fn after(p: Seq<char>, lit: Seq<char>) -> Option<Seq<char>> {
    if lit.len() <= p.len() && p.subrange(0, lit.len() as int) == lit {
        Some(p.subrange(lit.len() as int, p.len() as int))
    } else {
        None
    }
}

/// The three fields of a session, as optional character sequences.
pub type SessionFields = (Option<Seq<char>>, Option<Seq<char>>, Option<Seq<char>>);

/// The fields of a session.
pub open spec fn session_fields(s: ExecSession) -> SessionFields {
    (optional_view(s.session_id), optional_view(s.stream_url), optional_view(s.token_value))
}

/// Reads the value of the key `key` (written with its quotes and colon) that starts
/// `p`: the value and what follows it.
pub open spec fn decode_member(p: Seq<char>, key: Seq<char>) -> Option<(Option<Seq<char>>, Seq<char>)> {
    match after(p, key) {
        Some(q) => decode_optional(q),
        None => None,
    }
}

/// Decodes a session payload by the plugin's field names `SessionId`, `StreamUrl`
/// and `TokenValue`, in the order the launcher writes them, each a string or
/// `null`. None for any other text, among it keys of another casing.
pub open spec fn decode_session_json(p: Seq<char>) -> Option<SessionFields> {
    match decode_member(p, "{\"SessionId\":"@) {
        None => None,
        Some((a, p1)) => match decode_member(p1, ",\"StreamUrl\":"@) {
            None => None,
            Some((b, p2)) => match decode_member(p2, ",\"TokenValue\":"@) {
                None => None,
                Some((c, p3)) => if p3 == "}"@ {
                    Some((a, b, c))
                } else {
                    None
                },
            },
        },
    }
}

/// What follows a literal at the start of a text is the rest of it.
pub proof fn lemma_after(lit: Seq<char>, rest: Seq<char>)
    ensures
        after(lit + rest, lit) == Some(rest),
{
    assert((lit + rest).subrange(0, lit.len() as int) =~= lit);
    assert((lit + rest).subrange(lit.len() as int, (lit + rest).len() as int) =~= rest);
}

/// A key and a value in front of `rest` decode to that value, with `rest` after it.
pub proof fn lemma_decode_member(key: Seq<char>, v: Option<String>, rest: Seq<char>)
    ensures
        decode_member(key + optional_value(v) + rest, key) == Some((optional_view(v), rest)),
{
    assert(key + optional_value(v) + rest =~= key + (optional_value(v) + rest));
    lemma_after(key, optional_value(v) + rest);
    lemma_decode_optional(v, rest);
}

/// Decoding an encoded session payload by the plugin's field names gives back the
/// session id, the stream URL and the token value unchanged.
pub proof fn lemma_session_payload_round_trip(s: ExecSession)
    ensures
        decode_session_json(session_json(s)) == Some(session_fields(s)),
{
    let k1 = "{\"SessionId\":"@;
    let k2 = ",\"StreamUrl\":"@;
    let k3 = ",\"TokenValue\":"@;
    let close = "}"@;
    let v1 = optional_value(s.session_id);
    let v2 = optional_value(s.stream_url);
    let v3 = optional_value(s.token_value);
    let r3 = close;
    let r2 = k3 + v3 + r3;
    let r1 = k2 + v2 + r2;
    assert(session_json(s) =~= k1 + v1 + r1);
    assert(r1 =~= k2 + v2 + r2);
    lemma_decode_member(k1, s.session_id, r1);
    lemma_decode_member(k2, s.stream_url, r2);
    lemma_decode_member(k3, s.token_value, r3);
}

/// The start-session descriptor handed to the plugin: a JSON object with the keys
/// `DocumentName`, `Parameters`, `Reason` and `Target`. This launcher sets the
/// target alone; the other three are `null`.
pub open spec fn start_session_json(target: Seq<char>) -> Seq<char> {
    "{\"DocumentName\":null,\"Parameters\":null,\"Reason\":null,\"Target\":"@
        + string_literal(target) + "}"@
}

/// Encodes the start-session descriptor for `target`.
pub fn start_session_payload(target: &str) -> (r: String)
    ensures
        r@ == start_session_json(target@),
{
    let mut r = String::from_str(
        "{\"DocumentName\":null,\"Parameters\":null,\"Reason\":null,\"Target\":",
    );
    push_string_literal(&mut r, target);
    r.append("}");
    r
}

/// The control endpoint of a region.
pub open spec fn endpoint_of(region: Seq<char>) -> Seq<char> {
    "https://ssm."@ + region + ".amazonaws.com"@
}

/// Builds the control endpoint URL of `region`.
pub fn control_endpoint(region: &str) -> (r: String)
    ensures
        r@ == endpoint_of(region@),
{
    let mut r = String::from_str("https://ssm.");
    r.append(region);
    r.append(".amazonaws.com");
    r
}

/// The six arguments of the plugin, in their fixed order: the session payload, the
/// region, the operation `StartSession`, an empty profile, the start-session
/// descriptor and the control endpoint.
pub open spec fn plugin_args_of(s: ExecSession, region: Seq<char>, target: Seq<char>) -> Seq<Seq<char>> {
    seq![
        session_json(s),
        region,
        "StartSession"@,
        Seq::empty(),
        start_session_json(target),
        endpoint_of(region),
    ]
}

/// Builds the plugin's arguments for a session on `target` in `region`.
pub fn plugin_arguments(s: &ExecSession, region: &str, target: &str) -> (r: Vec<String>)
    ensures
        r@.map_values(|a: String| a@) == plugin_args_of(*s, region@, target@),
{
    let mut r: Vec<String> = Vec::new();
    r.push(session_payload(s));
    r.push(String::from_str(region));
    r.push(String::from_str("StartSession"));
    r.push(String::new());
    r.push(start_session_payload(target));
    r.push(control_endpoint(region));
    assert(r@.map_values(|a: String| a@) =~= plugin_args_of(*s, region@, target@));
    r
}

/// What the launcher hands to the plugin for `container` of the task `task_arn`
/// of `cluster`: the target is named after the cluster's display name, the task's
/// display name (the part of its identifier after the first `/`) and the
/// container's runtime id. Fails when the region did not resolve, or when the task
/// identifier holds no separator.
pub fn launch_arguments(
    cluster: &ClusterRef,
    task_arn: &str,
    container: &ContainerRef,
    session: &ExecSession,
    region: &Option<String>,
) -> (r: Result<Vec<String>, EcsError>)
    ensures
        match r {
            Ok(args) => {
                &&& region is Some
                &&& has_separator(task_arn@)
                &&& args@.map_values(|a: String| a@) == plugin_args_of(
                    *session,
                    region->Some_0@,
                    target_of(cluster.name@, display_name_of(task_arn@), container.runtime_id@),
                )
            },
            Err(e) => {
                ||| region is None && e is ApiError
                ||| region is Some && !has_separator(task_arn@) && e is ParseError
            },
        },
{
    let region = match region {
        Some(g) => g,
        None => {
            return Err(EcsError::ApiError(String::from_str("region is not defined")));
        },
    };
    let task = parse_identifier(task_arn)?;
    let target = session_target(cluster.name.as_str(), task.name.as_str(), container.runtime_id.as_str());
    Ok(plugin_arguments(session, region.as_str(), target.as_str()))
}

} // verus!
