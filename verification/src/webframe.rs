//! What a web frame is started with: the script that tells the page where
//! its socket is.

use crate::codec::{decimal, decimal_text, json_string_literal, string_literal};
use vstd::prelude::*;
use vstd::string::StringExecFns;

verus! {

/// The address of the socket that the page talks to.
pub open spec fn socket_address(host: Seq<char>, port: u16) -> Seq<char> {
    "ws://"@ + host + ":"@ + decimal(port as nat) + "/ws"@
}

/// The script around an address that is written as a JSON string.
pub open spec fn script_around(literal: Seq<char>) -> Seq<char> {
    "window.socket_url = "@ + literal + ";"@
}

/// The script that sets the address of the socket.
pub open spec fn init_script(host: Seq<char>, port: u16) -> Seq<char> {
    script_around(json_string_literal(socket_address(host, port)))
}

/// Writes the address of the socket that the page talks to.
pub fn socket_url(host: &str, port: u16) -> (address: String)
    ensures
        address@ == socket_address(host@, port),
{
    let digits = decimal_text(port);
    let mut address = "ws://".to_owned();
    address.append(host);
    address.append(":");
    address.append(digits.as_str());
    address.append("/ws");
    address
}

/// Writes the script around an address that is given as a JSON string.
pub fn script_for(literal: &str) -> (script: String)
    ensures
        script@ == script_around(literal@),
{
    let mut script = "window.socket_url = ".to_owned();
    script.append(literal);
    script.append(";");
    script
}

/// Writes the script that a web frame runs first: it sets the address of
/// the socket.
pub fn socket_init_script(host: &str, port: u16) -> (script: String)
    ensures
        script@ == init_script(host@, port),
{
    let address = socket_url(host, port);
    let literal = string_literal(address.as_str());
    script_for(literal.as_str())
}

} // verus!
