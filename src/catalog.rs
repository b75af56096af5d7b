use vstd::prelude::*;
use vstd::string::*;

verus! {

/// One entry of the catalog: a name and its price.
pub struct Pizza {
    pub name: String,
    pub price: u32,
}

impl View for Pizza {
    type V = (Seq<char>, u32);

    open spec fn view(&self) -> (Seq<char>, u32) {
        (self.name@, self.price)
    }
}

/// The ordered list of pizzas on offer.
pub struct PizzaList {
    pub pizzas: Vec<Pizza>,
}

impl View for PizzaList {
    type V = Seq<(Seq<char>, u32)>;

    open spec fn view(&self) -> Seq<(Seq<char>, u32)> {
        self.pizzas@.map_values(|p: Pizza| p@)
    }
}

/// The catalog: veggie at 10, hawaiian at 12, pepperoni at 11, in that order.
pub open spec fn catalog() -> Seq<(Seq<char>, u32)> {
    seq![("veggie"@, 10u32), ("hawaiian"@, 12u32), ("pepperoni"@, 11u32)]
}

/// The first entry of `entries` whose name is exactly `name`, if any.
pub open spec fn find_entry(name: Seq<char>, entries: Seq<(Seq<char>, u32)>) -> Option<(Seq<char>, u32)>
    decreases entries.len(),
{
    if entries.len() == 0 {
        None
    } else {
        match find_entry(name, entries.drop_last()) {
            Some(e) => Some(e),
            None => if entries.last().0 == name {
                Some(entries.last())
            } else {
                None
            },
        }
    }
}

/// A match found in a prefix of `entries` is the match in `entries` itself.
proof fn lemma_find_entry_prefix(name: Seq<char>, entries: Seq<(Seq<char>, u32)>, k: int)
    requires
        0 <= k <= entries.len(),
        find_entry(name, entries.take(k)) is Some,
    ensures
        find_entry(name, entries) == find_entry(name, entries.take(k)),
    decreases entries.len(),
{
    if k < entries.len() {
        assert(entries.drop_last().take(k) =~= entries.take(k));
        lemma_find_entry_prefix(name, entries.drop_last(), k);
    } else {
        assert(entries.take(k) =~= entries);
    }
}

impl PizzaList {
    /// Builds the catalog.
    pub fn new() -> (r: PizzaList)
        ensures
            r@ == catalog(),
    {
        let r = PizzaList {
            pizzas: vec![
                Pizza { name: String::from_str("veggie"), price: 10 },
                Pizza { name: String::from_str("hawaiian"), price: 12 },
                Pizza { name: String::from_str("pepperoni"), price: 11 },
            ],
        };
        assert(r@ =~= catalog());
        r
    }
}

/// Finds the first pizza of the list whose name equals `pizza_name` (case-sensitive).
pub fn get_pizza_from_name<'a>(pizza_name: &'a str, pizza_list: &'a PizzaList) -> (r: Option<&'a Pizza>)
    ensures
        match r {
            Some(p) => find_entry(pizza_name@, pizza_list@) == Some(p@),
            None => find_entry(pizza_name@, pizza_list@) is None,
        },
{
    let wanted = String::from_str(pizza_name);
    let n = pizza_list.pizzas.len();
    let mut i: usize = 0;
    while i < n
        invariant
            n == pizza_list.pizzas@.len(),
            i <= n,
            wanted@ == pizza_name@,
            find_entry(pizza_name@, pizza_list@.take(i as int)) is None,
        decreases n - i,
    {
        let p = &pizza_list.pizzas[i];
        assert(pizza_list@.take(i + 1).drop_last() =~= pizza_list@.take(i as int));
        if p.name == wanted {
            proof {
                lemma_find_entry_prefix(pizza_name@, pizza_list@, i + 1);
            }
            return Some(p);
        }
        i = i + 1;
    }
    assert(pizza_list@.take(n as int) =~= pizza_list@);
    None
}

} // verus!
