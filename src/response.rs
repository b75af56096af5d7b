use vstd::prelude::*;
use vstd::string::*;

use crate::catalog::Pizza;
use crate::json::{decimal, decimal_string, json_quote, json_string};

verus! {

/// Status code of a successful lookup.
pub const STATUS_OK: u16 = 200;

/// Status code of every handled failure.
pub const STATUS_BAD_REQUEST: u16 = 400;

/// An HTTP-style response: status code, content type and body.
pub struct ApiResponse {
    pub status: u16,
    pub content_type: String,
    pub body: String,
}

impl View for ApiResponse {
    type V = (u16, Seq<char>, Seq<char>);

    open spec fn view(&self) -> (u16, Seq<char>, Seq<char>) {
        (self.status, self.content_type@, self.body@)
    }
}

/// The content type of every response.
pub open spec fn json_content_type() -> Seq<char> {
    "application/json"@
}

/// The body that reports an entry: `{"name":<name>,"price":<price>}`.
pub open spec fn success_body(entry: (Seq<char>, u32)) -> Seq<char> {
    "{\"name\":"@ + json_string(entry.0) + ",\"price\":"@ + decimal(entry.1 as nat) + "}"@
}

/// The body that reports an error: `{"error":<message>}`.
pub open spec fn failure_body(message: Seq<char>) -> Seq<char> {
    "{\"error\":"@ + json_string(message) + "}"@
}

/// The response that reports an entry.
pub open spec fn success_response(entry: (Seq<char>, u32)) -> (u16, Seq<char>, Seq<char>) {
    (STATUS_OK, json_content_type(), success_body(entry))
}

/// The response that reports an error message.
pub open spec fn failure_response(message: Seq<char>) -> (u16, Seq<char>, Seq<char>) {
    (STATUS_BAD_REQUEST, json_content_type(), failure_body(message))
}

/// Status 200 with the pizza's name and price as a JSON object.
pub fn build_success_response(pizza: &Pizza) -> (r: ApiResponse)
    ensures
        r@ == success_response(pizza@),
{
    let name = json_quote(pizza.name.as_str());
    let price = decimal_string(pizza.price);
    let body = String::from_str("{\"name\":").concat(name.as_str()).concat(",\"price\":").concat(
        price.as_str(),
    ).concat("}");
    ApiResponse { status: STATUS_OK, content_type: String::from_str("application/json"), body }
}

/// Status 400 with `{"error":<message>}` as the body.
pub fn build_failure_response(error_message: &str) -> (r: ApiResponse)
    ensures
        r@ == failure_response(error_message@),
{
    let message = json_quote(error_message);
    let body = String::from_str("{\"error\":").concat(message.as_str()).concat("}");
    ApiResponse { status: STATUS_BAD_REQUEST, content_type: String::from_str("application/json"), body }
}

} // verus!
