use vstd::prelude::*;
use crate::value::{Fields, JsonModel};

verus! {

/// The payload of an envelope: its content, the name of its encoding, and
/// whatever further fields the sender added.
#[derive(Clone, Debug, PartialEq, Eq)]
pub struct Body {
    pub content: String,
    pub encoding: String,
    pub other: Fields,
}

/// The mathematical value of a `Body`.
pub ghost struct BodyModel {
    pub content: Seq<char>,
    pub encoding: Seq<char>,
    pub other: Seq<(Seq<char>, JsonModel)>,
}

impl View for Body {
    type V = BodyModel;

    open spec fn view(&self) -> BodyModel {
        BodyModel { content: self.content@, encoding: self.encoding@, other: self.other@ }
    }
}

/// The outcome that a response reports: a code, its canonical phrase and a
/// longer description.
#[derive(Clone, Debug, PartialEq, Eq)]
pub struct Status {
    pub code: u16,
    pub formal_message: String,
    pub human_message: String,
}

/// The mathematical value of a `Status`.
pub ghost struct StatusModel {
    pub code: u16,
    pub formal_message: Seq<char>,
    pub human_message: Seq<char>,
}

impl View for Status {
    type V = StatusModel;

    open spec fn view(&self) -> StatusModel {
        StatusModel {
            code: self.code,
            formal_message: self.formal_message@,
            human_message: self.human_message@,
        }
    }
}

/// A request envelope, as a client sent it.
#[derive(Clone, Debug, PartialEq, Eq)]
pub struct JsontpRequest {
    pub jsontp: String,
    pub type_of_request: String,
    pub method: String,
    pub resource: String,
    pub headers: Fields,
    pub body: Body,
}

/// The mathematical value of a `JsontpRequest`.
pub ghost struct RequestModel {
    pub jsontp: Seq<char>,
    pub type_of_request: Seq<char>,
    pub method: Seq<char>,
    pub resource: Seq<char>,
    pub headers: Seq<(Seq<char>, JsonModel)>,
    pub body: BodyModel,
}

impl View for JsontpRequest {
    type V = RequestModel;

    open spec fn view(&self) -> RequestModel {
        RequestModel {
            jsontp: self.jsontp@,
            type_of_request: self.type_of_request@,
            method: self.method@,
            resource: self.resource@,
            headers: self.headers@,
            body: self.body@,
        }
    }
}

/// A response envelope: the shape of a request, and a status.
#[derive(Clone, Debug, PartialEq, Eq)]
pub struct JsontpResponse {
    pub jsontp: String,
    pub type_of_response: String,
    pub status: Status,
    pub resource: String,
    pub headers: Fields,
    pub body: Body,
}

/// The mathematical value of a `JsontpResponse`.
pub ghost struct ResponseModel {
    pub jsontp: Seq<char>,
    pub type_of_response: Seq<char>,
    pub status: StatusModel,
    pub resource: Seq<char>,
    pub headers: Seq<(Seq<char>, JsonModel)>,
    pub body: BodyModel,
}

impl View for JsontpResponse {
    type V = ResponseModel;

    open spec fn view(&self) -> ResponseModel {
        ResponseModel {
            jsontp: self.jsontp@,
            type_of_response: self.type_of_response@,
            status: self.status@,
            resource: self.resource@,
            headers: self.headers@,
            body: self.body@,
        }
    }
}

} // verus!
