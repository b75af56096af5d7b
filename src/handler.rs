use vstd::prelude::*;

use crate::catalog::{catalog, find_entry, get_pizza_from_name, Pizza, PizzaList};
use crate::response::{
    build_failure_response, build_success_response, failure_response, success_response,
    ApiResponse,
};

verus! {

/// The request body: the name of the pizza asked for (empty when the field was absent).
pub struct MyPayload {
    pub pizza: String,
}

impl View for MyPayload {
    type V = Seq<char>;

    open spec fn view(&self) -> Seq<char> {
        self.pizza@
    }
}

/// The handled ways a request can fail.
#[derive(Clone, Copy, Debug, PartialEq, Eq, Structural)]
pub enum ErrorKind {
    /// The request carried no body at all.
    NoPayload,
    /// The body named no pizza.
    NoNameProvided,
    /// The pizza named is not in the catalog.
    NotFound,
}

/// The message that reports each kind of failure.
pub open spec fn error_message(kind: ErrorKind) -> Seq<char> {
    match kind {
        ErrorKind::NoPayload => "No payload provided"@,
        ErrorKind::NoNameProvided => "No pizza name provided"@,
        ErrorKind::NotFound => "Pizza not found"@,
    }
}

impl ErrorKind {
    /// The message sent back for this failure.
    pub fn message(&self) -> (r: &'static str)
        ensures
            r@ == error_message(*self),
    {
        match self {
            ErrorKind::NoPayload => "No payload provided",
            ErrorKind::NoNameProvided => "No pizza name provided",
            ErrorKind::NotFound => "Pizza not found",
        }
    }
}

/// The pizza field of an optional payload.
pub open spec fn payload_view(payload: Option<&MyPayload>) -> Option<Seq<char>> {
    match payload {
        Some(p) => Some(p@),
        None => None,
    }
}

/// The characters of an optional name.
pub open spec fn name_view(name: Option<&str>) -> Option<Seq<char>> {
    match name {
        Some(n) => Some(n@),
        None => None,
    }
}

/// The name a payload asks for, or why it asks for none.
pub open spec fn interpretation(payload: Option<Seq<char>>) -> Result<Seq<char>, ErrorKind> {
    match payload {
        None => Err(ErrorKind::NoPayload),
        Some(name) => if name.len() == 0 {
            Err(ErrorKind::NoNameProvided)
        } else {
            Ok(name)
        },
    }
}

/// The entry that an optional name picks out of `entries`, or the message that says why none.
pub open spec fn event_outcome(name: Option<Seq<char>>, entries: Seq<(Seq<char>, u32)>) -> Result<
    (Seq<char>, u32),
    Seq<char>,
> {
    match name {
        None => Err(error_message(ErrorKind::NoNameProvided)),
        Some(n) => match find_entry(n, entries) {
            Some(e) => Ok(e),
            None => Err(error_message(ErrorKind::NotFound)),
        },
    }
}

/// The response to a request whose payload is `payload`.
pub open spec fn handle_spec(payload: Option<Seq<char>>) -> (u16, Seq<char>, Seq<char>) {
    match interpretation(payload) {
        Err(kind) => failure_response(error_message(kind)),
        Ok(name) => match event_outcome(Some(name), catalog()) {
            Ok(entry) => success_response(entry),
            Err(message) => failure_response(message),
        },
    }
}

/// Reads the pizza name out of the payload, if there is one and it names a pizza.
pub fn interpret(payload: Option<&MyPayload>) -> (r: Result<&str, ErrorKind>)
    ensures
        match r {
            Ok(name) => interpretation(payload_view(payload)) == Ok::<Seq<char>, ErrorKind>(name@),
            Err(kind) => interpretation(payload_view(payload)) == Err::<Seq<char>, ErrorKind>(kind),
        },
{
    match payload {
        None => Err(ErrorKind::NoPayload),
        Some(p) => {
            let name = p.pizza.as_str();
            if name.unicode_len() == 0 {
                Err(ErrorKind::NoNameProvided)
            } else {
                Ok(name)
            }
        },
    }
}

/// Looks the name up in the list: the pizza, or the message for the failure.
pub fn process_event<'a>(pizza_name: Option<&'a str>, pizza_list: &'a PizzaList) -> (r: Result<
    &'a Pizza,
    &'a str,
>)
    ensures
        match r {
            Ok(p) => event_outcome(name_view(pizza_name), pizza_list@) == Ok::<
                (Seq<char>, u32),
                Seq<char>,
            >(p@),
            Err(m) => event_outcome(name_view(pizza_name), pizza_list@) == Err::<
                (Seq<char>, u32),
                Seq<char>,
            >(m@),
        },
{
    match pizza_name {
        Some(name) => {
            match get_pizza_from_name(name, pizza_list) {
                Some(pizza) => Ok(pizza),
                None => Err(ErrorKind::NotFound.message()),
            }
        },
        None => Err(ErrorKind::NoNameProvided.message()),
    }
}

/// Answers one request: the price of the pizza named in the payload, or a 400 error.
pub fn handle_payload(payload: Option<&MyPayload>) -> (r: ApiResponse)
    ensures
        r@ == handle_spec(payload_view(payload)),
{
    let pizza_list = PizzaList::new();
    match interpret(payload) {
        Err(kind) => build_failure_response(kind.message()),
        Ok(name) => match process_event(Some(name), &pizza_list) {
            Ok(pizza) => build_success_response(pizza),
            Err(message) => build_failure_response(message),
        },
    }
}

} // verus!
