//! The kinds of customer that the pricing rules tell apart.
use vstd::prelude::*;

use crate::text::{all_white_space, lemma_trimmed_ignores_padding, text_equals, trim_text, trimmed};

verus! {

/// A customer kind, read from its lower-case name.
#[derive(Debug, Clone, Copy, PartialEq, Eq, Structural)]
pub enum CustomerType {
    Vip,
    Premium,
    Employee,
    Partner,
    Regular,
    New,
    Unknown,
}

/// The customer kind that a name denotes once leading and trailing whitespace
/// is removed; names are matched exactly (no case folding), and any other
/// name denotes `Unknown`.
pub open spec fn customer_type_named(name: Seq<char>) -> CustomerType {
    let t = trimmed(name);
    if t == "vip"@ {
        CustomerType::Vip
    } else if t == "premium"@ {
        CustomerType::Premium
    } else if t == "employee"@ {
        CustomerType::Employee
    } else if t == "partner"@ {
        CustomerType::Partner
    } else if t == "regular"@ {
        CustomerType::Regular
    } else if t == "new"@ {
        CustomerType::New
    } else {
        CustomerType::Unknown
    }
}

impl CustomerType {
    /// Reads a customer kind from its name, ignoring surrounding whitespace.
    pub fn from_str(s: &str) -> (r: Self)
        ensures
            r == customer_type_named(s@),
    {
        let t = trim_text(s);
        if text_equals(t, "vip") {
            CustomerType::Vip
        } else if text_equals(t, "premium") {
            CustomerType::Premium
        } else if text_equals(t, "employee") {
            CustomerType::Employee
        } else if text_equals(t, "partner") {
            CustomerType::Partner
        } else if text_equals(t, "regular") {
            CustomerType::Regular
        } else if text_equals(t, "new") {
            CustomerType::New
        } else {
            CustomerType::Unknown
        }
    }
}

/// A customer name padded with whitespace on either side names the same
/// customer kind as the bare name.
pub proof fn customer_type_ignores_padding(p: Seq<char>, name: Seq<char>, q: Seq<char>)
    requires
        all_white_space(p),
        all_white_space(q),
    ensures
        customer_type_named(p + name + q) == customer_type_named(name),
{
    lemma_trimmed_ignores_padding(p, name, q);
}

/// The six customer names are pairwise different texts.
proof fn lemma_customer_names_distinct()
    ensures
        "vip"@ != "premium"@,
        "vip"@ != "employee"@,
        "vip"@ != "partner"@,
        "vip"@ != "regular"@,
        "vip"@ != "new"@,
        "premium"@ != "employee"@,
        "premium"@ != "partner"@,
        "premium"@ != "regular"@,
        "premium"@ != "new"@,
        "employee"@ != "partner"@,
        "employee"@ != "regular"@,
        "employee"@ != "new"@,
        "partner"@ != "regular"@,
        "partner"@ != "new"@,
        "regular"@ != "new"@,
{
    reveal_strlit("vip");
    reveal_strlit("premium");
    reveal_strlit("employee");
    reveal_strlit("partner");
    reveal_strlit("regular");
    reveal_strlit("new");
    assert("vip"@.len() == 3);
    assert("new"@.len() == 3);
    assert("premium"@.len() == 7);
    assert("partner"@.len() == 7);
    assert("regular"@.len() == 7);
    assert("employee"@.len() == 8);
    assert("vip"@[0] == 'v');
    assert("new"@[0] == 'n');
    assert("premium"@[1] == 'r');
    assert("partner"@[1] == 'a');
    assert("regular"@[1] == 'e');
}

/// A name denotes a customer kind exactly when, once trimmed, it is that
/// kind's lower-case name; every other name, in any other case or spelling,
/// denotes `Unknown`.
pub proof fn customer_type_named_exactly(name: Seq<char>)
    ensures
        (customer_type_named(name) == CustomerType::Vip) == (trimmed(name) == "vip"@),
        (customer_type_named(name) == CustomerType::Premium) == (trimmed(name) == "premium"@),
        (customer_type_named(name) == CustomerType::Employee) == (trimmed(name) == "employee"@),
        (customer_type_named(name) == CustomerType::Partner) == (trimmed(name) == "partner"@),
        (customer_type_named(name) == CustomerType::Regular) == (trimmed(name) == "regular"@),
        (customer_type_named(name) == CustomerType::New) == (trimmed(name) == "new"@),
        (customer_type_named(name) == CustomerType::Unknown) == (trimmed(name) != "vip"@
            && trimmed(name) != "premium"@ && trimmed(name) != "employee"@ && trimmed(name)
            != "partner"@ && trimmed(name) != "regular"@ && trimmed(name) != "new"@),
{
    lemma_customer_names_distinct();
}

} // verus!
