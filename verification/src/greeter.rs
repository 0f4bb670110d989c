//! The greeter: the one handler that the gateway serves.

use crate::status::Status;
use vstd::prelude::*;
use vstd::string::*;

verus! {

/// A greeting request.
#[derive(Debug)]
pub struct HelloRequest {
    pub name: String,
    pub message: String,
}

/// The greeter's reply.
#[derive(Debug)]
pub struct HelloReply {
    pub message: String,
}

/// The text of the reply to a request from `name` with `message`.
pub open spec fn greeting(name: Seq<char>, message: Seq<char>) -> Seq<char> {
    "Hello "@ + name + " from Bufstack! Your message: "@ + message
}

/// The greeter service. It keeps no state and asks not who calls.
#[derive(Debug, Default)]
pub struct HelloWorldServiceImpl {}

impl HelloWorldServiceImpl {
    /// Greets the caller: the reply names the caller and repeats the message.
    /// The handler never fails.
    pub fn say_hello(&self, request: HelloRequest) -> (reply: Result<HelloReply, Status>)
        ensures
            reply matches Ok(hello) && hello.message@ == greeting(request.name@, request.message@),
    {
        let mut message = String::from_str("Hello ");
        message.append(request.name.as_str());
        message.append(" from Bufstack! Your message: ");
        message.append(request.message.as_str());
        Ok(HelloReply { message })
    }
}

} // verus!
