use vstd::prelude::*;

verus! {

/// The ways in which an operation of the session layer can fail.
#[derive(Debug, Clone, Copy, PartialEq, Eq, Structural)]
pub enum EtcdError {
    /// The destination could not be parsed or reached, or a service stub
    /// could not be set up.
    Connection,
    /// A call returned a transport-level or server-level failure.
    Request,
    /// A key or a value returned by a read is not valid text.
    Decode,
    /// The inbound stream of a watch reported a failure.
    Stream,
}

impl EtcdError {
    /// A short description of the error.
    pub fn describe(&self) -> (r: String)
        ensures
            r@ == self.description(),
    {
        match self {
            EtcdError::Connection => String::from_str("connection error"),
            EtcdError::Request => String::from_str("request error"),
            EtcdError::Decode => String::from_str("decode error"),
            EtcdError::Stream => String::from_str("stream error"),
        }
    }

    pub open spec fn description(&self) -> Seq<char> {
        match self {
            EtcdError::Connection => "connection error"@,
            EtcdError::Request => "request error"@,
            EtcdError::Decode => "decode error"@,
            EtcdError::Stream => "stream error"@,
        }
    }
}

} // verus!
