//! The protocol's action tokens. A `Method` renders as a fixed upper-case
//! word, usable verbatim in method lists and in the sequence-number line.

use vstd::prelude::*;

verus! {

/// One action token of the signaling protocol.
#[derive(Clone, Copy, PartialEq, Eq, Structural, Debug)]
pub enum Method {
    Invite,
    Ack,
    Bye,
    Cancel,
    Register,
    Options,
    PRack,
    Publish,
    Info,
    Subscribe,
    Notify,
    Update,
    Message,
    Refer,
}

/// The canonical text of a method.
pub open spec fn method_text(m: Method) -> Seq<char> {
    match m {
        Method::Invite => "INVITE"@,
        Method::Ack => "ACK"@,
        Method::Bye => "BYE"@,
        Method::Cancel => "CANCEL"@,
        Method::Register => "REGISTER"@,
        Method::Options => "OPTIONS"@,
        Method::PRack => "PRACK"@,
        Method::Publish => "PUBLISH"@,
        Method::Info => "INFO"@,
        Method::Subscribe => "SUBSCRIBE"@,
        Method::Notify => "NOTIFY"@,
        Method::Update => "UPDATE"@,
        Method::Message => "MESSAGE"@,
        Method::Refer => "REFER"@,
    }
}

impl Method {
    /// The canonical text of this method.
    pub fn text(&self) -> (r: &'static str)
        ensures
            r@ == method_text(*self),
    {
        match self {
            Method::Invite => "INVITE",
            Method::Ack => "ACK",
            Method::Bye => "BYE",
            Method::Cancel => "CANCEL",
            Method::Register => "REGISTER",
            Method::Options => "OPTIONS",
            Method::PRack => "PRACK",
            Method::Publish => "PUBLISH",
            Method::Info => "INFO",
            Method::Subscribe => "SUBSCRIBE",
            Method::Notify => "NOTIFY",
            Method::Update => "UPDATE",
            Method::Message => "MESSAGE",
            Method::Refer => "REFER",
        }
    }
}

} // verus!
