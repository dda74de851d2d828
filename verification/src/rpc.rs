//! The JSON-RPC messages the remote sends to Kodi, over HTTP for key presses
//! and over the WebSocket for the now-playing information.

use vstd::prelude::*;
use vstd::string::*;

use crate::decimal::{decimal, i64_to_decimal, signed_decimal, usize_to_decimal};
use crate::instance::{Instance, DEFAULT_WS_PORT};
use crate::json::{json_string_literal, quote_json_string};

verus! {

/// The request for the list of active players, sent when the WebSocket opens.
pub open spec fn active_players_request() -> Seq<char> {
    "{\"id\":1,\"jsonrpc\":\"2.0\",\"method\":\"Player.GetActivePlayers\"}"@
}

/// The request, numbered `id`, for the elapsed and total time of `player`.
pub open spec fn properties_request(id: nat, player: int) -> Seq<char> {
    "{\"id\":"@ + decimal(id)
        + ",\"jsonrpc\":\"2.0\",\"method\":\"Player.GetProperties\",\"params\":{\"playerid\":"@
        + signed_decimal(player) + ",\"properties\":[\"time\",\"totaltime\",\"percentage\"]}}"@
}

/// The request, numbered `id`, for the item that `player` plays.
pub open spec fn item_request(id: nat, player: int) -> Seq<char> {
    "{\"id\":"@ + decimal(id)
        + ",\"jsonrpc\":\"2.0\",\"method\":\"Player.GetItem\",\"params\":{\"playerid\":"@
        + signed_decimal(player)
        + ",\"properties\":[\"title\",\"artist\",\"album\",\"duration\",\"showtitle\",\"season\",\"episode\"]}}"@
}

/// The request that makes Kodi perform the input action `action`.
pub open spec fn execute_action_request(action: Seq<char>) -> Seq<char> {
    "{\"id\":1,\"jsonrpc\":\"2.0\",\"method\":\"Input.ExecuteAction\",\"params\":{\"action\":"@
        + json_string_literal(action) + "}}"@
}

/// The address of Kodi's JSON-RPC interface over HTTP.
pub open spec fn http_url(hostname: Seq<char>, port: usize) -> Seq<char> {
    "http://"@ + hostname + ":"@ + decimal(port as nat) + "/jsonrpc"@
}

/// The address of Kodi's JSON-RPC WebSocket.
pub open spec fn ws_url(hostname: Seq<char>) -> Seq<char> {
    "ws://"@ + hostname + ":"@ + decimal(DEFAULT_WS_PORT as nat) + "/jsonrpc"@
}

/// The user name and password sent with a request: both, or nothing.
pub open spec fn credentials(i: crate::instance::InstanceView) -> Option<(Seq<char>, Seq<char>)> {
    match (i.username, i.password) {
        (Some(u), Some(p)) => Some((u, p)),
        _ => None,
    }
}

/// The message for a key press that did not reach Kodi.
pub open spec fn transport_failure_message(detail: Seq<char>) -> Seq<char> {
    "Failed to send request: "@ + detail
}

/// The message for a key press that Kodi answered with an error status.
pub open spec fn status_failure_message(status: Seq<char>) -> Seq<char> {
    "Request failed with status: "@ + status
}

/// Whether an HTTP status code means success (the 2xx range).
pub open spec fn is_success_status(code: u16) -> bool {
    200 <= code < 300
}

/// Kodi's WebSocket is at port 9090, its HTTP interface at the instance's
/// port, both under `/jsonrpc`.
pub proof fn lemma_addresses(hostname: Seq<char>, port: usize)
    ensures
        ws_url(hostname) == "ws://"@ + hostname + seq![':', '9', '0', '9', '0'] + "/jsonrpc"@,
        http_url(hostname, port) == "http://"@ + hostname + seq![':'] + decimal(port as nat) + "/jsonrpc"@,
{
    reveal_strlit(":");
    reveal_with_fuel(decimal, 5);
    assert(decimal(9090) =~= seq!['9', '0', '9', '0']);
    assert(ws_url(hostname) =~= "ws://"@ + hostname + seq![':', '9', '0', '9', '0'] + "/jsonrpc"@);
    assert(http_url(hostname, port) =~= "http://"@ + hostname + seq![':'] + decimal(port as nat) + "/jsonrpc"@);
}

/// A status counts as success exactly when it is in 200..=299.
pub proof fn lemma_success_is_2xx(code: u16)
    ensures
        is_success_status(code) <==> 200 <= code <= 299,
{
}

/// Credentials go with a request exactly when the instance has both a user
/// name and a password, and then they are those two.
pub proof fn lemma_credentials(i: crate::instance::InstanceView)
    ensures
        credentials(i) is Some <==> (i.username is Some && i.password is Some),
        credentials(i) matches Some((u, p)) ==> Some(u) == i.username && Some(p) == i.password,
{
}

/// An HTTP request to send: a POST of a JSON body, with basic
/// authentication when `basic_auth` holds a user name and password.
#[derive(Debug)]
pub struct HttpRequest {
    pub url: String,
    pub body: String,
    pub basic_auth: Option<(String, String)>,
}

/// The text of optional credentials.
pub open spec fn credentials_text(c: Option<(String, String)>) -> Option<(Seq<char>, Seq<char>)> {
    match c {
        Some((u, p)) => Some((u@, p@)),
        None => None,
    }
}

/// The request for the list of active players.
pub fn active_players_message() -> (r: String)
    ensures
        r@ == active_players_request(),
{
    String::from_str("{\"id\":1,\"jsonrpc\":\"2.0\",\"method\":\"Player.GetActivePlayers\"}")
}

/// The request, numbered `id`, for the elapsed and total time of `player`.
pub fn properties_message(id: usize, player: i64) -> (r: String)
    ensures
        r@ == properties_request(id as nat, player as int),
{
    let mut r = String::from_str("{\"id\":");
    r.append(usize_to_decimal(id).as_str());
    r.append(",\"jsonrpc\":\"2.0\",\"method\":\"Player.GetProperties\",\"params\":{\"playerid\":");
    r.append(i64_to_decimal(player).as_str());
    r.append(",\"properties\":[\"time\",\"totaltime\",\"percentage\"]}}");
    r
}

/// The request, numbered `id`, for the item that `player` plays.
pub fn item_message(id: usize, player: i64) -> (r: String)
    ensures
        r@ == item_request(id as nat, player as int),
{
    let mut r = String::from_str("{\"id\":");
    r.append(usize_to_decimal(id).as_str());
    r.append(",\"jsonrpc\":\"2.0\",\"method\":\"Player.GetItem\",\"params\":{\"playerid\":");
    r.append(i64_to_decimal(player).as_str());
    r.append(
        ",\"properties\":[\"title\",\"artist\",\"album\",\"duration\",\"showtitle\",\"season\",\"episode\"]}}",
    );
    r
}

/// The request that makes Kodi perform the input action `action`.
pub fn execute_action_message(action: &str) -> (r: String)
    ensures
        r@ == execute_action_request(action@),
{
    let quoted = match quote_json_string(action) {
        Some(q) => q,
        None => String::new(),
    };
    let mut r = String::from_str(
        "{\"id\":1,\"jsonrpc\":\"2.0\",\"method\":\"Input.ExecuteAction\",\"params\":{\"action\":",
    );
    r.append(quoted.as_str());
    r.append("}}");
    r
}

/// The address of Kodi's JSON-RPC WebSocket on `hostname`.
pub fn websocket_url(hostname: &str) -> (r: String)
    ensures
        r@ == ws_url(hostname@),
{
    let mut r = String::from_str("ws://");
    r.append(hostname);
    r.append(":");
    r.append(usize_to_decimal(DEFAULT_WS_PORT).as_str());
    r.append("/jsonrpc");
    r
}

impl Instance {
    /// The address of this instance's JSON-RPC interface over HTTP.
    pub fn jsonrpc_url(&self) -> (r: String)
        ensures
            r@ == http_url(self.hostname@, self.http_port),
    {
        let mut r = String::from_str("http://");
        r.append(self.hostname.as_str());
        r.append(":");
        r.append(usize_to_decimal(self.http_port).as_str());
        r.append("/jsonrpc");
        r
    }

    /// The HTTP request that asks this instance to perform the input
    /// action `key`, authenticated when both a user name and a password
    /// are set.
    pub fn send_key_request(&self, key: &str) -> (r: HttpRequest)
        ensures
            r.url@ == http_url(self.hostname@, self.http_port),
            r.body@ == execute_action_request(key@),
            credentials_text(r.basic_auth) == credentials(self@),
    {
        let basic_auth = match (&self.username, &self.password) {
            (Some(u), Some(p)) => Some((u.clone(), p.clone())),
            _ => None,
        };
        HttpRequest { url: self.jsonrpc_url(), body: execute_action_message(key), basic_auth }
    }
}

/// What a key press came to, from what the HTTP exchange gave: the status
/// code and its text when Kodi answered, the error's text when it did not.
pub fn send_key_outcome(reply: Result<(u16, String), String>) -> (r: Result<(), String>)
    ensures
        match reply {
            Err(detail) => r matches Err(e) && e@ == transport_failure_message(detail@),
            Ok((code, status)) => if is_success_status(code) {
                r is Ok
            } else {
                r matches Err(e) && e@ == status_failure_message(status@)
            },
        },
        r is Ok <==> (reply is Ok && 200 <= reply->Ok_0.0 <= 299),
        (reply is Ok && !(200 <= reply->Ok_0.0 <= 299)) ==> (r is Err && r->Err_0@
            == "Request failed with status: "@ + reply->Ok_0.1@),
        reply is Err ==> (r is Err && r->Err_0@ == "Failed to send request: "@ + reply->Err_0@),
{
    match reply {
        Err(detail) => {
            let mut e = String::from_str("Failed to send request: ");
            e.append(detail.as_str());
            Err(e)
        },
        Ok((code, status)) => {
            if 200 <= code && code < 300 {
                Ok(())
            } else {
                let mut e = String::from_str("Request failed with status: ");
                e.append(status.as_str());
                Err(e)
            }
        },
    }
}

} // verus!
