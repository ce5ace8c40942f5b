//! One authorized call of a function of a program.

use vstd::prelude::*;

verus! {

/// What a request is to the contracts of this library: the two names by which it is
/// classified, and the bytes that it carries.
pub struct RequestView {
    pub program_id: Seq<char>,
    pub function_name: Seq<char>,
    pub payload: Seq<u8>,
}

/// A call of the function `function_name` of the program `program_id`.
///
/// The payload is the signed call data in serialized form. The library carries it
/// from the producer of a request to its consumer and never looks into it.
#[derive(Debug, PartialEq, Eq)]
pub struct Request {
    program_id: String,
    function_name: String,
    payload: Vec<u8>,
}

impl View for Request {
    type V = RequestView;

    closed spec fn view(&self) -> RequestView {
        RequestView {
            program_id: self.program_id@,
            function_name: self.function_name@,
            payload: self.payload@,
        }
    }
}

impl Request {
    /// Makes the request that calls `function_name` of `program_id` with `payload`.
    pub fn new(program_id: String, function_name: String, payload: Vec<u8>) -> (request: Request)
        ensures
            request@.program_id == program_id@,
            request@.function_name == function_name@,
            request@.payload == payload@,
    {
        Request { program_id, function_name, payload }
    }

    /// The name of the program that the request calls.
    pub fn program_id(&self) -> (id: &String)
        ensures
            id@ == self@.program_id,
    {
        &self.program_id
    }

    /// The name of the function that the request calls.
    pub fn function_name(&self) -> (name: &String)
        ensures
            name@ == self@.function_name,
    {
        &self.function_name
    }

    /// The bytes that the request carries.
    pub fn payload(&self) -> (bytes: &Vec<u8>)
        ensures
            bytes@ == self@.payload,
    {
        &self.payload
    }
}

impl Clone for Request {
    /// A copy with the same names and the same payload.
    fn clone(&self) -> (copy: Request)
        ensures
            copy@ == self@,
    {
        Request {
            program_id: self.program_id.clone(),
            function_name: self.function_name.clone(),
            payload: self.payload.clone(),
        }
    }
}

} // verus!
