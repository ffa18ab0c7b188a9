//! How a container is asked whether it works.

use crate::text::{concat, concat3, concat4, digits, digits_of, duplicate_texts, texts};
use vstd::prelude::*;

verus! {

/// Whether `hyper::Uri` takes a text for a URI.
pub uninterp spec fn is_uri(text: Seq<char>) -> bool;

/// Parses a text as `hyper::Uri` (`FromStr::from_str`), and tells whether that succeeds.
#[verifier::external_body]
fn parses_as_uri(text: &str) -> (parsed: bool)
    ensures
        parsed == is_uri(text@),
{
    text.parse::<hyper::Uri>().is_ok()
}

/// The address of an HTTP probe.
pub open spec fn http_address(host: Seq<char>, port: u16, path: Seq<char>) -> Seq<char> {
    "http://"@ + host + ":"@ + digits(port as nat) + path
}

/// The address of an HTTP probe.
pub fn http_address_of(host: &str, port: u16, path: &str) -> (address: String)
    ensures
        address@ == http_address(host@, port, path@),
{
    let number = digits_of(port as u128);
    let start = concat4("http://", host, ":", number.as_str());
    concat(start.as_str(), path)
}

/// Where an HTTP probe asks. Where that is no URI, there is nothing to ask, and the probe
/// fails.
pub fn http_target(host: &str, port: u16, path: &str) -> (target: Option<String>)
    ensures
        match target {
            Some(address) => address@ == http_address(host@, port, path@) && is_uri(address@),
            None => !is_uri(http_address(host@, port, path@)),
        },
{
    let address = http_address_of(host, port, path);
    if parses_as_uri(address.as_str()) {
        Some(address)
    } else {
        None
    }
}

/// Whether an HTTP probe succeeded: it did when a response came in time, with a status of
/// success or redirection.
pub fn http_passed(status: Option<u16>) -> (passed: bool)
    ensures
        passed == (status matches Some(code) && 200 <= code < 400),
{
    match status {
        Some(code) => 200 <= code && code < 400,
        None => false,
    }
}

/// Whether a probe by a command succeeded: it did when the command ended in time, with the exit
/// code zero.
pub fn exec_passed(code: Option<i32>) -> (passed: bool)
    ensures
        passed == (code == Some(0i32)),
{
    match code {
        Some(number) => number == 0,
        None => false,
    }
}

/// Where a TCP probe connects to.
pub fn tcp_target(host: &str, port: u16) -> (target: String)
    ensures
        target@ == host@ + ":"@ + digits(port as nat),
{
    let number = digits_of(port as u128);
    concat3(host, ":", number.as_str())
}

/// The arguments with which `podman` runs a probe's command inside a container. An empty
/// command is not run, and its probe fails.
pub fn exec_arguments(container_id: &str, command: &Vec<String>) -> (arguments: Option<Vec<String>>)
    ensures
        match arguments {
            Some(list) => command@.len() > 0 && texts(list@) == seq!["exec"@, container_id@]
                + texts(command@),
            None => command@.len() == 0,
        },
{
    if command.len() == 0 {
        return None;
    }
    let mut list: Vec<String> = Vec::new();
    list.push("exec".to_owned());
    list.push(container_id.to_owned());
    let mut rest = duplicate_texts(command);
    let ghost start = list@;
    let ghost tail = rest@;
    list.append(&mut rest);
    assert(texts(list@) =~= texts(start) + texts(tail));
    assert(texts(start) =~= seq!["exec"@, container_id@]);
    Some(list)
}

} // verus!
