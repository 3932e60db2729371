//! Discount rules: a base discount by customer kind, at most one coupon, a
//! Black Friday bonus, and a global cap.
use vstd::prelude::*;

use crate::customer_type::CustomerType;
use crate::text::text_equals;

verus! {

/// The largest discount, in percent, that an order can get.
pub const MAX_DISCOUNT_PERCENT: i32 = 40;

pub const PREMIUM_DISCOUNT_THRESHOLD_CENTS: i32 = 10_000;

pub const SAVE10_THRESHOLD_CENTS: i32 = 5_000;

pub const BULK_THRESHOLD_CENTS: i32 = 20_000;

pub const PARTNER5_THRESHOLD_CENTS: i32 = 12_000;

/// Discount, in percent, that the customer kind alone gives.
pub open spec fn base_discount_spec(customer_type: CustomerType, subtotal: int) -> int {
    match customer_type {
        CustomerType::Vip => 15,
        CustomerType::Premium => if subtotal >= PREMIUM_DISCOUNT_THRESHOLD_CENTS {
            10
        } else {
            5
        },
        CustomerType::Employee => 30,
        CustomerType::Partner => 12,
        CustomerType::Regular | CustomerType::New | CustomerType::Unknown => 0,
    }
}

/// Discount, in percent, that the coupon gives. The code is matched exactly;
/// only one coupon rule can apply, the first whose code matches.
pub open spec fn coupon_discount_spec(
    customer_type: CustomerType,
    subtotal: int,
    coupon: Seq<char>,
) -> int {
    if coupon == "SAVE10"@ {
        if subtotal >= SAVE10_THRESHOLD_CENTS {
            10
        } else {
            0
        }
    } else if coupon == "VIPONLY"@ {
        if customer_type == CustomerType::Vip {
            5
        } else {
            0
        }
    } else if coupon == "BULK"@ {
        if subtotal >= BULK_THRESHOLD_CENTS {
            7
        } else {
            0
        }
    } else if coupon == "PARTNER5"@ {
        if customer_type == CustomerType::Partner && subtotal >= PARTNER5_THRESHOLD_CENTS {
            5
        } else {
            0
        }
    } else {
        0
    }
}

/// Extra discount, in percent, on Black Friday: none for employees, 3 for
/// partners, 5 for everyone else.
pub open spec fn black_friday_bonus_spec(customer_type: CustomerType, black_friday: bool) -> int {
    if !black_friday {
        0
    } else {
        match customer_type {
            CustomerType::Employee => 0,
            CustomerType::Partner => 3,
            _ => 5,
        }
    }
}

/// The three discounts added up, before the cap.
pub open spec fn uncapped_discount_spec(
    customer_type: CustomerType,
    subtotal: int,
    coupon: Seq<char>,
    black_friday: bool,
) -> int {
    base_discount_spec(customer_type, subtotal) + coupon_discount_spec(
        customer_type,
        subtotal,
        coupon,
    ) + black_friday_bonus_spec(customer_type, black_friday)
}

/// The discount, in percent, of an order: the sum of the three discounts,
/// capped at `MAX_DISCOUNT_PERCENT`.
pub open spec fn discount_percent_spec(
    customer_type: CustomerType,
    subtotal: int,
    coupon: Seq<char>,
    black_friday: bool,
) -> int {
    let sum = uncapped_discount_spec(customer_type, subtotal, coupon, black_friday);
    if sum > MAX_DISCOUNT_PERCENT {
        MAX_DISCOUNT_PERCENT as int
    } else {
        sum
    }
}

/// Discount, in percent, that the customer kind alone gives.
pub fn base_discount_percent(customer_type: CustomerType, subtotal: i32) -> (r: i32)
    ensures
        r == base_discount_spec(customer_type, subtotal as int),
{
    match customer_type {
        CustomerType::Vip => 15,
        CustomerType::Premium => {
            if subtotal >= PREMIUM_DISCOUNT_THRESHOLD_CENTS {
                10
            } else {
                5
            }
        },
        CustomerType::Employee => 30,
        CustomerType::Partner => 12,
        CustomerType::Regular | CustomerType::New | CustomerType::Unknown => 0,
    }
}

/// Discount, in percent, that the coupon gives.
pub fn coupon_discount_percent(customer_type: CustomerType, subtotal: i32, coupon: &str) -> (r:
    i32)
    ensures
        r == coupon_discount_spec(customer_type, subtotal as int, coupon@),
{
    if text_equals(coupon, "SAVE10") {
        if subtotal >= SAVE10_THRESHOLD_CENTS {
            10
        } else {
            0
        }
    } else if text_equals(coupon, "VIPONLY") {
        if customer_type == CustomerType::Vip {
            5
        } else {
            0
        }
    } else if text_equals(coupon, "BULK") {
        if subtotal >= BULK_THRESHOLD_CENTS {
            7
        } else {
            0
        }
    } else if text_equals(coupon, "PARTNER5") {
        if customer_type == CustomerType::Partner && subtotal >= PARTNER5_THRESHOLD_CENTS {
            5
        } else {
            0
        }
    } else {
        0
    }
}

/// Extra discount, in percent, on Black Friday.
pub fn black_friday_discount_percent(customer_type: CustomerType, black_friday: bool) -> (r: i32)
    ensures
        r == black_friday_bonus_spec(customer_type, black_friday),
{
    if black_friday {
        match customer_type {
            CustomerType::Employee => 0,
            CustomerType::Partner => 3,
            _ => 5,
        }
    } else {
        0
    }
}

/// The discount, in percent, for a customer kind, the subtotal before any
/// discount, a coupon code, and whether it is Black Friday.
pub fn calculate_discount_percent(
    customer_type: CustomerType,
    subtotal: i32,
    coupon: &str,
    black_friday: bool,
) -> (r: i32)
    ensures
        r == discount_percent_spec(customer_type, subtotal as int, coupon@, black_friday),
        0 <= r <= MAX_DISCOUNT_PERCENT,
{
    let mut discount_percent = base_discount_percent(customer_type, subtotal);
    discount_percent = discount_percent + coupon_discount_percent(customer_type, subtotal, coupon);
    discount_percent = discount_percent + black_friday_discount_percent(
        customer_type,
        black_friday,
    );
    if discount_percent > MAX_DISCOUNT_PERCENT {
        discount_percent = MAX_DISCOUNT_PERCENT;
    }
    discount_percent
}

/// The discount rules never add up to more than the cap: the cap is a
/// safeguard that no combination of customer kind, coupon and Black Friday
/// reaches.
pub proof fn discount_sum_never_exceeds_cap(
    customer_type: CustomerType,
    subtotal: int,
    coupon: Seq<char>,
    black_friday: bool,
)
    ensures
        0 <= uncapped_discount_spec(customer_type, subtotal, coupon, black_friday)
            <= MAX_DISCOUNT_PERCENT,
        discount_percent_spec(customer_type, subtotal, coupon, black_friday)
            == uncapped_discount_spec(customer_type, subtotal, coupon, black_friday),
{
}

/// Employees get no Black Friday bonus: their discount is the same whether or
/// not it is Black Friday.
pub proof fn employee_discount_ignores_black_friday(subtotal: int, coupon: Seq<char>)
    ensures
        discount_percent_spec(CustomerType::Employee, subtotal, coupon, true)
            == discount_percent_spec(CustomerType::Employee, subtotal, coupon, false),
{
}


/// The coupon codes that the discount rules know, and the empty code, are
/// pairwise different texts.
proof fn lemma_coupon_codes_distinct()
    ensures
        ""@ != "SAVE10"@,
        ""@ != "VIPONLY"@,
        ""@ != "BULK"@,
        ""@ != "PARTNER5"@,
        "SAVE10"@ != "VIPONLY"@,
        "SAVE10"@ != "BULK"@,
        "SAVE10"@ != "PARTNER5"@,
        "VIPONLY"@ != "BULK"@,
        "VIPONLY"@ != "PARTNER5"@,
        "BULK"@ != "PARTNER5"@,
{
    reveal_strlit("");
    reveal_strlit("SAVE10");
    reveal_strlit("VIPONLY");
    reveal_strlit("BULK");
    reveal_strlit("PARTNER5");
    assert(""@.len() == 0);
    assert("SAVE10"@.len() == 6);
    assert("VIPONLY"@.len() == 7);
    assert("BULK"@.len() == 4);
    assert("PARTNER5"@.len() == 8);
    assert("SAVE10"@[0] == 'S');
    assert("VIPONLY"@[0] == 'V');
    assert("BULK"@[0] == 'B');
    assert("PARTNER5"@[0] == 'P');
}

/// Without coupon and outside Black Friday, the discount of each customer
/// kind is its base rate: 15 for VIP, 10 for premium from a subtotal of
/// 10000 and 5 below, 30 for employees, 12 for partners, none otherwise.
pub proof fn discount_without_coupon_by_customer_kind(customer_type: CustomerType, subtotal: int)
    ensures
        discount_percent_spec(customer_type, subtotal, ""@, false) == match customer_type {
            CustomerType::Vip => 15,
            CustomerType::Premium => if subtotal >= 10_000 {
                10int
            } else {
                5
            },
            CustomerType::Employee => 30,
            CustomerType::Partner => 12,
            _ => 0,
        },
{
    lemma_coupon_codes_distinct();
    discount_sum_never_exceeds_cap(customer_type, subtotal, ""@, false);
}

/// SAVE10 adds exactly 10 to the discount of every customer kind from a
/// subtotal of 5000, and nothing below.
pub proof fn save10_adds_ten_from_threshold(
    customer_type: CustomerType,
    subtotal: int,
    black_friday: bool,
)
    ensures
        subtotal >= 5_000 ==> discount_percent_spec(customer_type, subtotal, "SAVE10"@, black_friday)
            == discount_percent_spec(customer_type, subtotal, ""@, black_friday) + 10,
        subtotal < 5_000 ==> discount_percent_spec(customer_type, subtotal, "SAVE10"@, black_friday)
            == discount_percent_spec(customer_type, subtotal, ""@, black_friday),
{
    lemma_coupon_codes_distinct();
    discount_sum_never_exceeds_cap(customer_type, subtotal, ""@, black_friday);
    discount_sum_never_exceeds_cap(customer_type, subtotal, "SAVE10"@, black_friday);
}

/// VIPONLY adds exactly 5 to the discount of a VIP customer, whatever the
/// subtotal, and nothing for any other customer kind.
pub proof fn viponly_adds_five_for_vip_only(
    customer_type: CustomerType,
    subtotal: int,
    black_friday: bool,
)
    ensures
        customer_type == CustomerType::Vip ==> discount_percent_spec(
            customer_type,
            subtotal,
            "VIPONLY"@,
            black_friday,
        ) == discount_percent_spec(customer_type, subtotal, ""@, black_friday) + 5,
        customer_type != CustomerType::Vip ==> discount_percent_spec(
            customer_type,
            subtotal,
            "VIPONLY"@,
            black_friday,
        ) == discount_percent_spec(customer_type, subtotal, ""@, black_friday),
{
    lemma_coupon_codes_distinct();
    discount_sum_never_exceeds_cap(customer_type, subtotal, ""@, black_friday);
    discount_sum_never_exceeds_cap(customer_type, subtotal, "VIPONLY"@, black_friday);
}

/// BULK adds exactly 7 to the discount of every customer kind from a
/// subtotal of 20000, and nothing below.
pub proof fn bulk_adds_seven_from_threshold(
    customer_type: CustomerType,
    subtotal: int,
    black_friday: bool,
)
    ensures
        subtotal >= 20_000 ==> discount_percent_spec(customer_type, subtotal, "BULK"@, black_friday)
            == discount_percent_spec(customer_type, subtotal, ""@, black_friday) + 7,
        subtotal < 20_000 ==> discount_percent_spec(customer_type, subtotal, "BULK"@, black_friday)
            == discount_percent_spec(customer_type, subtotal, ""@, black_friday),
{
    lemma_coupon_codes_distinct();
    discount_sum_never_exceeds_cap(customer_type, subtotal, ""@, black_friday);
    discount_sum_never_exceeds_cap(customer_type, subtotal, "BULK"@, black_friday);
}

/// PARTNER5 adds exactly 5 to the discount of a partner from a subtotal of
/// 12000, and nothing otherwise.
pub proof fn partner5_adds_five_for_partner_from_threshold(
    customer_type: CustomerType,
    subtotal: int,
    black_friday: bool,
)
    ensures
        customer_type == CustomerType::Partner && subtotal >= 12_000 ==> discount_percent_spec(
            customer_type,
            subtotal,
            "PARTNER5"@,
            black_friday,
        ) == discount_percent_spec(customer_type, subtotal, ""@, black_friday) + 5,
        !(customer_type == CustomerType::Partner && subtotal >= 12_000) ==> discount_percent_spec(
            customer_type,
            subtotal,
            "PARTNER5"@,
            black_friday,
        ) == discount_percent_spec(customer_type, subtotal, ""@, black_friday),
{
    lemma_coupon_codes_distinct();
    discount_sum_never_exceeds_cap(customer_type, subtotal, ""@, black_friday);
    discount_sum_never_exceeds_cap(customer_type, subtotal, "PARTNER5"@, black_friday);
}

/// A code that is none of SAVE10, VIPONLY, BULK and PARTNER5 (these exact
/// texts) gives the same discount as no coupon.
pub proof fn unknown_coupon_adds_nothing(
    customer_type: CustomerType,
    subtotal: int,
    coupon: Seq<char>,
    black_friday: bool,
)
    requires
        coupon != "SAVE10"@,
        coupon != "VIPONLY"@,
        coupon != "BULK"@,
        coupon != "PARTNER5"@,
    ensures
        discount_percent_spec(customer_type, subtotal, coupon, black_friday) == discount_percent_spec(
            customer_type,
            subtotal,
            ""@,
            black_friday,
        ),
{
    lemma_coupon_codes_distinct();
}

/// Black Friday adds exactly 5 to the discount, except 3 for partners and
/// nothing for employees, whatever the coupon and subtotal.
pub proof fn black_friday_bonus_by_customer_kind(
    customer_type: CustomerType,
    subtotal: int,
    coupon: Seq<char>,
)
    ensures
        discount_percent_spec(customer_type, subtotal, coupon, true) == discount_percent_spec(
            customer_type,
            subtotal,
            coupon,
            false,
        ) + if customer_type == CustomerType::Employee {
            0int
        } else if customer_type == CustomerType::Partner {
            3
        } else {
            5
        },
{
    discount_sum_never_exceeds_cap(customer_type, subtotal, coupon, true);
    discount_sum_never_exceeds_cap(customer_type, subtotal, coupon, false);
}

} // verus!
