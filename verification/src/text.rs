//! Texts of the messages that failure responses carry.
//!
//! The router answers a request that names a session or a peer it does not
//! hold without asking the session network. The texts of those answers are
//! fixed here, so that a contract can say which text a response carries.

use vstd::prelude::*;
use vstd::string::StringExecFns;

verus! {

/// The character that stands for a digit below ten.
pub open spec fn spec_digit(d: nat) -> char {
    if d == 0 {
        '0'
    } else if d == 1 {
        '1'
    } else if d == 2 {
        '2'
    } else if d == 3 {
        '3'
    } else if d == 4 {
        '4'
    } else if d == 5 {
        '5'
    } else if d == 6 {
        '6'
    } else if d == 7 {
        '7'
    } else if d == 8 {
        '8'
    } else {
        '9'
    }
}

/// The decimal digits of `n`, most significant first, without leading zeros.
pub open spec fn spec_decimal(n: nat) -> Seq<char>
    decreases n,
{
    if n < 10 {
        seq![spec_digit(n)]
    } else {
        spec_decimal(n / 10).push(spec_digit(n % 10))
    }
}

fn digit_text(d: u64) -> (s: &'static str)
    requires
        d < 10,
    ensures
        s@ == seq![spec_digit(d as nat)],
{
    proof {
        reveal_strlit("0");
        reveal_strlit("1");
        reveal_strlit("2");
        reveal_strlit("3");
        reveal_strlit("4");
        reveal_strlit("5");
        reveal_strlit("6");
        reveal_strlit("7");
        reveal_strlit("8");
        reveal_strlit("9");
    }
    let s: &'static str = if d == 0 {
        "0"
    } else if d == 1 {
        "1"
    } else if d == 2 {
        "2"
    } else if d == 3 {
        "3"
    } else if d == 4 {
        "4"
    } else if d == 5 {
        "5"
    } else if d == 6 {
        "6"
    } else if d == 7 {
        "7"
    } else if d == 8 {
        "8"
    } else {
        "9"
    };
    assert(s@ =~= seq![spec_digit(d as nat)]);
    s
}

/// Renders `n` in decimal.
pub fn decimal(n: u64) -> (text: String)
    ensures
        text@ == spec_decimal(n as nat),
    decreases n,
{
    if n < 10 {
        String::from_str(digit_text(n))
    } else {
        let mut text = decimal(n / 10);
        text.append(digit_text(n % 10));
        assert(text@ =~= spec_decimal((n / 10) as nat).push(spec_digit((n % 10) as nat)));
        text
    }
}

/// Text of the failure for a session that the router does not hold.
pub open spec fn spec_connection_not_found(cid: u64) -> Seq<char> {
    "Connection for "@ + spec_decimal(cid as nat) + " not found"@
}

/// Text of the failure for a peer that the session does not hold.
pub open spec fn spec_peer_not_found(peer_cid: u64) -> Seq<char> {
    "Peer connection for "@ + spec_decimal(peer_cid as nat) + " not found"@
}

/// Text of the failure of a peer request whose session the router does not
/// hold.
pub open spec fn spec_server_connection_not_found() -> Seq<char> {
    "Server connection not found"@
}

/// Text of the failure of a `PeerConnect` that names the peer 0: in a
/// forwarded message the peer 0 stands for the server of the session.
pub open spec fn spec_peer_cid_reserved() -> Seq<char> {
    "The peer cid 0 stands for the server"@
}

/// Text of the failure of a disconnect that the session network refused,
/// with the network's own account of it.
pub open spec fn spec_failed_to_disconnect(detail: Seq<char>) -> Seq<char> {
    "Failed to disconnect "@ + detail
}

/// Text of the answer to a request for a file download.
pub open spec fn spec_download_unavailable() -> Seq<char> {
    "File download is not available"@
}

/// The text "Connection for {cid} not found".
pub fn connection_not_found(cid: u64) -> (text: String)
    ensures
        text@ == spec_connection_not_found(cid),
{
    let mut text = String::from_str("Connection for ");
    let digits = decimal(cid);
    text.append(digits.as_str());
    text.append(" not found");
    text
}

/// The text "Peer connection for {peer_cid} not found".
pub fn peer_not_found(peer_cid: u64) -> (text: String)
    ensures
        text@ == spec_peer_not_found(peer_cid),
{
    let mut text = String::from_str("Peer connection for ");
    let digits = decimal(peer_cid);
    text.append(digits.as_str());
    text.append(" not found");
    text
}

/// The text "Server connection not found".
pub fn server_connection_not_found() -> (text: String)
    ensures
        text@ == spec_server_connection_not_found(),
{
    String::from_str("Server connection not found")
}

/// The text "The peer cid 0 stands for the server".
pub fn peer_cid_reserved() -> (text: String)
    ensures
        text@ == spec_peer_cid_reserved(),
{
    String::from_str("The peer cid 0 stands for the server")
}

/// The text "Failed to disconnect {detail}".
pub fn failed_to_disconnect(detail: &str) -> (text: String)
    ensures
        text@ == spec_failed_to_disconnect(detail@),
{
    let mut text = String::from_str("Failed to disconnect ");
    text.append(detail);
    text
}

/// The text of the answer to a request for a file download.
pub fn download_unavailable() -> (text: String)
    ensures
        text@ == spec_download_unavailable(),
{
    String::from_str("File download is not available")
}

/// A failure for an unknown session says so in words that a UI can look
/// for: its text ends in " not found", after the number of the session.
pub proof fn lemma_not_found_text(cid: u64)
    ensures
        spec_connection_not_found(cid).len() == 25 + spec_decimal(cid as nat).len(),
        spec_connection_not_found(cid).subrange(
            15 + spec_decimal(cid as nat).len() as int,
            25 + spec_decimal(cid as nat).len() as int,
        ) == " not found"@,
        spec_connection_not_found(cid).subrange(0, 15) == "Connection for "@,
        spec_connection_not_found(cid).subrange(15, 15 + spec_decimal(cid as nat).len() as int)
            == spec_decimal(cid as nat),
{
    reveal_strlit("Connection for ");
    reveal_strlit(" not found");
    let digits = spec_decimal(cid as nat);
    let text = spec_connection_not_found(cid);
    assert(text.subrange(15 + digits.len() as int, 25 + digits.len() as int) =~= " not found"@);
    assert(text.subrange(0, 15) =~= "Connection for "@);
    assert(text.subrange(15, 15 + digits.len() as int) =~= digits);
}

} // verus!
