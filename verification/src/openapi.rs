//! Pieces of the client code that is written for the operations of an HTTP
//! API.

use vstd::prelude::*;

verus! {

/// How the body of a response is read.
#[derive(Clone, Copy, Debug, PartialEq, Eq, Structural)]
pub enum ResponseType {
    /// The body is JSON.
    Json,
    /// The body is text.
    Text,
    /// There is no body.
    Empty,
}

impl ResponseType {
    /// The end of a client function that reads the response in this way.
    pub open spec fn response_part(self) -> Seq<char> {
        match self {
            ResponseType::Json => "\n        .json()\n        .await?;\n\n    Ok(response)"@,
            ResponseType::Text => "\n        .text()\n        .await?;\n\n    Ok(response)"@,
            ResponseType::Empty => ";\n\n    Ok(())"@,
        }
    }

    pub fn generate_response_part(&self) -> (part: &'static str)
        ensures
            part@ == self.response_part(),
    {
        match self {
            ResponseType::Json => "\n        .json()\n        .await?;\n\n    Ok(response)",
            ResponseType::Text => "\n        .text()\n        .await?;\n\n    Ok(response)",
            ResponseType::Empty => ";\n\n    Ok(())",
        }
    }

    /// The end of a client function that takes the body of the response as
    /// bytes, for want of a type that is known.
    pub fn fallback_response_part() -> (part: &'static str)
        ensures
            part@ == "\n        .bytes()\n        .await?;\n\n    Ok(response)"@,
    {
        "\n        .bytes()\n        .await?;\n\n    Ok(response)"
    }
}

} // verus!
