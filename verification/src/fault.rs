//! Why a connection was given up.

use vstd::prelude::*;
use vstd::string::StringExecFns;

verus! {

/// The error of the SOCKS5 layer.
#[verifier::external_type_specification]
#[verifier::external_body]
pub struct ExSocks5Error(socks5_proto::Error);

/// The error of the SOCKS5 layer that wraps an I/O error of the kind "other" with
/// the given text.
pub uninterp spec fn other_error_of(text: Seq<char>) -> socks5_proto::Error;

/// Calls `std::io::Error::new` with `ErrorKind::Other` and turns the I/O error
/// into one of the SOCKS5 layer. What comes out depends on the text alone; how
/// it prints is left unsaid.
#[verifier::external_body]
pub fn other_error(err: &str) -> (error: socks5_proto::Error)
    ensures
        error == other_error_of(err@),
{
    std::io::Error::new(std::io::ErrorKind::Other, err).into()
}

/// A reason of the proxy's own to give a connection up.
#[derive(Debug, PartialEq, Eq)]
pub enum Complaint {
    /// A client asked for something else than a connection.
    UnimplementedCommand,
    /// The upstream at this address wants authentication.
    NoAcceptableMethod(String),
    /// The upstream at this address refused the request.
    UnsuccessfulReply(String),
    /// No connection id came in time.
    IdTimeout,
    /// Both streams of a session claim the same direction.
    MismatchedConnection,
    /// The first stream of the session could not connect.
    NothingLeft,
}

impl Complaint {
    /// How the complaint reads.
    pub open spec fn text(self) -> Seq<char> {
        match self {
            Complaint::UnimplementedCommand => "Unimplemented command"@,
            Complaint::NoAcceptableMethod(peer) => "No acceptable auth method from "@ + peer@,
            Complaint::UnsuccessfulReply(upstream) => "Unsuccessful socks5 reply from "@
                + upstream@,
            Complaint::IdTimeout => "Timeout while reading connection id"@,
            Complaint::MismatchedConnection => "Mismatched connection type"@,
            Complaint::NothingLeft => "No remote connection for the session"@,
        }
    }

    /// How the complaint reads.
    pub fn message(&self) -> (message: String)
        ensures
            message@ == self.text(),
            match *self {
                Complaint::UnimplementedCommand => message@ == "Unimplemented command"@,
                Complaint::NoAcceptableMethod(peer) => message@
                    == "No acceptable auth method from "@ + peer@,
                Complaint::UnsuccessfulReply(upstream) => message@
                    == "Unsuccessful socks5 reply from "@ + upstream@,
                Complaint::IdTimeout => message@ == "Timeout while reading connection id"@,
                Complaint::MismatchedConnection => message@ == "Mismatched connection type"@,
                Complaint::NothingLeft => message@ == "No remote connection for the session"@,
            },
    {
        match self {
            Complaint::UnimplementedCommand => "Unimplemented command".to_owned(),
            Complaint::NoAcceptableMethod(peer) => {
                "No acceptable auth method from ".to_owned().concat(peer.as_str())
            },
            Complaint::UnsuccessfulReply(upstream) => {
                "Unsuccessful socks5 reply from ".to_owned().concat(upstream.as_str())
            },
            Complaint::IdTimeout => "Timeout while reading connection id".to_owned(),
            Complaint::MismatchedConnection => "Mismatched connection type".to_owned(),
            Complaint::NothingLeft => "No remote connection for the session".to_owned(),
        }
    }
}

/// Why a connection was given up.
#[derive(Debug, PartialEq, Eq)]
pub enum Fault<E> {
    /// An operation failed and handed back this error.
    Outside(E),
    /// The proxy itself has a reason.
    Own(Complaint),
}

impl Fault<socks5_proto::Error> {
    /// The error to report: the outside one as it came, or one that carries the
    /// complaint.
    pub fn into_error(self) -> (error: socks5_proto::Error)
        ensures
            match self {
                Fault::Outside(outside) => error == outside,
                Fault::Own(complaint) => error == other_error_of(complaint.text()),
            },
    {
        match self {
            Fault::Outside(outside) => outside,
            Fault::Own(complaint) => other_error(complaint.message().as_str()),
        }
    }
}

/// A complaint about another proxy ends with that proxy's address, whole and
/// unchanged; the two kinds that name an address read differently whatever the
/// addresses are; and each of the others has words of its own.
pub proof fn law_complaints_say_what_they_are_about(peer: String, upstream: String)
    ensures
        ({
            let method = Complaint::NoAcceptableMethod(peer).text();
            let reply = Complaint::UnsuccessfulReply(upstream).text();
            let method_words = "No acceptable auth method from "@;
            let reply_words = "Unsuccessful socks5 reply from "@;
            &&& method.take(method_words.len() as int) == method_words
            &&& method.skip(method_words.len() as int) == peer@
            &&& reply.take(reply_words.len() as int) == reply_words
            &&& reply.skip(reply_words.len() as int) == upstream@
            &&& method != reply
        }),
        Complaint::UnimplementedCommand.text() == "Unimplemented command"@,
        Complaint::IdTimeout.text() == "Timeout while reading connection id"@,
        Complaint::MismatchedConnection.text() == "Mismatched connection type"@,
        Complaint::NothingLeft.text() == "No remote connection for the session"@,
{
    reveal_strlit("No acceptable auth method from ");
    reveal_strlit("Unsuccessful socks5 reply from ");
    let method = Complaint::NoAcceptableMethod(peer).text();
    let reply = Complaint::UnsuccessfulReply(upstream).text();
    assert(method[0] == 'N');
    assert(reply[0] == 'U');
    assert(method.take("No acceptable auth method from "@.len() as int)
        =~= "No acceptable auth method from "@);
    assert(method.skip("No acceptable auth method from "@.len() as int) =~= peer@);
    assert(reply.take("Unsuccessful socks5 reply from "@.len() as int)
        =~= "Unsuccessful socks5 reply from "@);
    assert(reply.skip("Unsuccessful socks5 reply from "@.len() as int) =~= upstream@);
}

} // verus!
