use vstd::prelude::*;

use crate::catalog::{catalog, find_entry};
use crate::handler::{error_message, event_outcome, handle_spec, ErrorKind};
use crate::response::{failure_response, STATUS_BAD_REQUEST};

verus! {

/// Any non-empty name other than veggie, hawaiian and pepperoni is not in the catalog,
/// and a request for it is answered with status 400 and the message "Pizza not found".
pub proof fn lemma_unknown_name_not_found(name: Seq<char>)
    requires
        name.len() > 0,
        name != "veggie"@,
        name != "hawaiian"@,
        name != "pepperoni"@,
    ensures
        find_entry(name, catalog()) is None,
        event_outcome(Some(name), catalog()) == Err::<(Seq<char>, u32), Seq<char>>(
            "Pizza not found"@,
        ),
        handle_spec(Some(name)) == failure_response("Pizza not found"@),
        handle_spec(Some(name)).0 == STATUS_BAD_REQUEST,
{
    let c = catalog();
    assert(c.drop_last() =~= seq![("veggie"@, 10u32), ("hawaiian"@, 12u32)]);
    assert(c.drop_last().drop_last() =~= seq![("veggie"@, 10u32)]);
    assert(c.drop_last().drop_last().drop_last() =~= Seq::<(Seq<char>, u32)>::empty());
    assert(find_entry(name, c.drop_last().drop_last().drop_last()) is None);
    assert(c.drop_last().drop_last().last().0 == "veggie"@);
    assert(find_entry(name, c.drop_last().drop_last()) is None);
    assert(c.drop_last().last().0 == "hawaiian"@);
    assert(find_entry(name, c.drop_last()) is None);
    assert(c.last().0 == "pepperoni"@);
    assert(error_message(ErrorKind::NotFound) == "Pizza not found"@);
}

/// Two requests with the same payload get the same response: nothing carries over
/// from one request to the next.
pub proof fn lemma_repeated_requests_agree(
    payload: Option<Seq<char>>,
    first: (u16, Seq<char>, Seq<char>),
    second: (u16, Seq<char>, Seq<char>),
)
    requires
        first == handle_spec(payload),
        second == handle_spec(payload),
    ensures
        first == second,
{
}

} // verus!
