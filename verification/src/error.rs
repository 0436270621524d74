use vstd::prelude::*;
use vstd::string::*;

verus! {

/// The ways in which talking to the battle server can fail.
#[derive(Debug, PartialEq, Eq)]
pub enum Error {
    /// No message could be read from the socket.
    ReadError,
    /// A message was read but held no text.
    GetDataError,
    /// A command that the client does not know.
    InvalidCmd(String),
    /// The server answered with a command other than the one expected.
    ServerError,
    /// The server address does not form a valid URI; the parser's message.
    InvalidUri(String),
}

/// The text that describes an error.
pub open spec fn error_text(e: Error) -> Seq<char> {
    match e {
        Error::ReadError => "Failed to read from socket"@,
        Error::GetDataError => "Failed to get data from socket"@,
        Error::InvalidCmd(cmd) => "Invalid cmd: "@ + cmd@,
        Error::ServerError => "Server sent error"@,
        Error::InvalidUri(msg) => msg@,
    }
}

impl Error {
    /// Describes the error in words.
    pub fn to_string(&self) -> (s: String)
        ensures
            s@ == error_text(*self),
    {
        match self {
            Error::ReadError => String::from_str("Failed to read from socket"),
            Error::GetDataError => String::from_str("Failed to get data from socket"),
            Error::InvalidCmd(cmd) => {
                let mut s = String::from_str("Invalid cmd: ");
                s.append(cmd.as_str());
                s
            },
            Error::ServerError => String::from_str("Server sent error"),
            Error::InvalidUri(msg) => msg.clone(),
        }
    }
}

} // verus!
