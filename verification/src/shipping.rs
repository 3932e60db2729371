//! Shipping rules: a rate by country, a Black Friday surcharge in the US,
//! free-shipping overrides, and an employee surcharge applied after them.
use vstd::prelude::*;

use crate::customer_type::CustomerType;
use crate::text::text_equals;

verus! {

pub const IT_SHIPPING_CENTS: i32 = 700;

pub const DE_SHIPPING_CENTS: i32 = 900;

pub const US_SHIPPING_CENTS: i32 = 1_500;

pub const OTHER_SHIPPING_CENTS: i32 = 2_500;

pub const US_BLACK_FRIDAY_SURCHARGE_CENTS: i32 = 300;

pub const EMPLOYEE_NON_IT_SURCHARGE_CENTS: i32 = 500;

pub const FREESHIP_THRESHOLD_CENTS: i32 = 8_000;

pub const VIP_FREESHIP_THRESHOLD_CENTS: i32 = 15_000;

pub const PREMIUM_FREESHIP_THRESHOLD_CENTS: i32 = 20_000;

pub const PARTNER_FREESHIP_THRESHOLD_CENTS: i32 = 15_000;

/// Shipping rate, in cents, of a country code (matched exactly).
pub open spec fn base_shipping_spec(country: Seq<char>) -> int {
    if country == "IT"@ {
        IT_SHIPPING_CENTS as int
    } else if country == "DE"@ {
        DE_SHIPPING_CENTS as int
    } else if country == "US"@ {
        US_SHIPPING_CENTS as int
    } else {
        OTHER_SHIPPING_CENTS as int
    }
}

/// Whether some free-shipping rule applies: the FREESHIP coupon, or a VIP,
/// premium or partner customer above their threshold. The thresholds are on
/// the discounted subtotal.
pub open spec fn free_shipping_applies(
    customer_type: CustomerType,
    coupon: Seq<char>,
    discounted_subtotal: int,
) -> bool {
    ||| coupon == "FREESHIP"@ && discounted_subtotal >= FREESHIP_THRESHOLD_CENTS
    ||| customer_type == CustomerType::Vip && discounted_subtotal >= VIP_FREESHIP_THRESHOLD_CENTS
    ||| customer_type == CustomerType::Premium && discounted_subtotal
        >= PREMIUM_FREESHIP_THRESHOLD_CENTS
    ||| customer_type == CustomerType::Partner && discounted_subtotal
        >= PARTNER_FREESHIP_THRESHOLD_CENTS
}

/// Shipping, in cents. Free shipping waives the country rate and the Black
/// Friday surcharge, but not the employee surcharge outside IT.
pub open spec fn shipping_spec(
    customer_type: CustomerType,
    country: Seq<char>,
    coupon: Seq<char>,
    discounted_subtotal: int,
    black_friday: bool,
) -> int {
    let charged = base_shipping_spec(country) + if black_friday && country == "US"@ {
        US_BLACK_FRIDAY_SURCHARGE_CENTS as int
    } else {
        0
    };
    let employee_surcharge = if customer_type == CustomerType::Employee && country != "IT"@ {
        EMPLOYEE_NON_IT_SURCHARGE_CENTS as int
    } else {
        0
    };
    if free_shipping_applies(customer_type, coupon, discounted_subtotal) {
        employee_surcharge
    } else {
        charged + employee_surcharge
    }
}

/// Shipping rate, in cents, of a country code.
pub fn base_shipping_cents(country: &str) -> (r: i32)
    ensures
        r == base_shipping_spec(country@),
{
    if text_equals(country, "IT") {
        IT_SHIPPING_CENTS
    } else if text_equals(country, "DE") {
        DE_SHIPPING_CENTS
    } else if text_equals(country, "US") {
        US_SHIPPING_CENTS
    } else {
        OTHER_SHIPPING_CENTS
    }
}

/// Shipping, in cents, for a customer kind, a country code, a coupon code, the
/// subtotal after discount, and whether it is Black Friday.
pub fn calculate_shipping_cents(
    customer_type: CustomerType,
    country: &str,
    coupon: &str,
    discounted_subtotal: i32,
    black_friday: bool,
) -> (r: i32)
    ensures
        r == shipping_spec(customer_type, country@, coupon@, discounted_subtotal as int, black_friday),
        0 <= r <= OTHER_SHIPPING_CENTS + EMPLOYEE_NON_IT_SURCHARGE_CENTS,
{
    // 1. rate by country
    let mut shipping_cents = base_shipping_cents(country);
    let is_us = text_equals(country, "US");
    let is_it = text_equals(country, "IT");

    // 2. Black Friday surcharge, in the US only
    if black_friday && is_us {
        shipping_cents = shipping_cents + US_BLACK_FRIDAY_SURCHARGE_CENTS;
    }

    // 3-6. free-shipping overrides
    if text_equals(coupon, "FREESHIP") && discounted_subtotal >= FREESHIP_THRESHOLD_CENTS {
        shipping_cents = 0;
    }
    if customer_type == CustomerType::Vip && discounted_subtotal >= VIP_FREESHIP_THRESHOLD_CENTS {
        shipping_cents = 0;
    }
    if customer_type == CustomerType::Premium && discounted_subtotal
        >= PREMIUM_FREESHIP_THRESHOLD_CENTS {
        shipping_cents = 0;
    }
    if customer_type == CustomerType::Partner && discounted_subtotal
        >= PARTNER_FREESHIP_THRESHOLD_CENTS {
        shipping_cents = 0;
    }

    // 7. employee surcharge outside IT, applied after the overrides
    if customer_type == CustomerType::Employee && !is_it {
        shipping_cents = shipping_cents + EMPLOYEE_NON_IT_SURCHARGE_CENTS;
    }
    shipping_cents
}

/// An employee shipping outside IT always pays the employee surcharge, even
/// when a free-shipping rule applies.
pub proof fn employee_outside_it_pays_surcharge(
    country: Seq<char>,
    coupon: Seq<char>,
    discounted_subtotal: int,
    black_friday: bool,
)
    requires
        country != "IT"@,
    ensures
        shipping_spec(CustomerType::Employee, country, coupon, discounted_subtotal, black_friday)
            >= EMPLOYEE_NON_IT_SURCHARGE_CENTS,
{
}

/// The Black Friday surcharge applies in the US only: elsewhere, shipping is
/// the same whether or not it is Black Friday.
pub proof fn black_friday_surcharge_only_in_us(
    customer_type: CustomerType,
    country: Seq<char>,
    coupon: Seq<char>,
    discounted_subtotal: int,
)
    requires
        country != "US"@,
    ensures
        shipping_spec(customer_type, country, coupon, discounted_subtotal, true) == shipping_spec(
            customer_type,
            country,
            coupon,
            discounted_subtotal,
            false,
        ),
{
}

/// The country codes and coupon codes that the shipping rules know, and the
/// empty code, are pairwise different texts.
proof fn lemma_shipping_codes_distinct()
    ensures
        "IT"@ != "DE"@,
        "IT"@ != "US"@,
        "DE"@ != "US"@,
        ""@ != "FREESHIP"@,
{
    reveal_strlit("IT");
    reveal_strlit("DE");
    reveal_strlit("US");
    reveal_strlit("");
    reveal_strlit("FREESHIP");
    assert("IT"@[0] == 'I');
    assert("DE"@[0] == 'D');
    assert("US"@[0] == 'U');
    assert(""@.len() == 0);
    assert("FREESHIP"@.len() == 8);
}

/// For a regular customer with no coupon outside Black Friday, shipping is
/// the country rate: 700 to IT, 900 to DE, 1500 to the US and 2500 elsewhere,
/// whatever the subtotal.
pub proof fn shipping_rate_by_country(country: Seq<char>, discounted_subtotal: int)
    ensures
        shipping_spec(CustomerType::Regular, country, ""@, discounted_subtotal, false) == if country
            == "IT"@ {
            700int
        } else if country == "DE"@ {
            900
        } else if country == "US"@ {
            1_500
        } else {
            2_500
        },
{
    lemma_shipping_codes_distinct();
}

/// In the US, when no free-shipping rule applies, Black Friday adds exactly
/// 300 to shipping for every customer kind.
pub proof fn us_black_friday_adds_surcharge(
    customer_type: CustomerType,
    coupon: Seq<char>,
    discounted_subtotal: int,
)
    requires
        !(coupon == "FREESHIP"@ && discounted_subtotal >= 8_000),
        !(customer_type == CustomerType::Vip && discounted_subtotal >= 15_000),
        !(customer_type == CustomerType::Premium && discounted_subtotal >= 20_000),
        !(customer_type == CustomerType::Partner && discounted_subtotal >= 15_000),
    ensures
        shipping_spec(customer_type, "US"@, coupon, discounted_subtotal, true) == shipping_spec(
            customer_type,
            "US"@,
            coupon,
            discounted_subtotal,
            false,
        ) + 300,
{
    lemma_shipping_codes_distinct();
}

/// FREESHIP from a discounted subtotal of 8000 waives all shipping, for every
/// customer kind and country, except the 500 that employees pay outside IT.
pub proof fn freeship_waives_shipping_from_threshold(
    customer_type: CustomerType,
    country: Seq<char>,
    discounted_subtotal: int,
    black_friday: bool,
)
    requires
        discounted_subtotal >= 8_000,
    ensures
        shipping_spec(customer_type, country, "FREESHIP"@, discounted_subtotal, black_friday) == if customer_type
            == CustomerType::Employee && country != "IT"@ {
            500int
        } else {
            0
        },
{
}

/// Below a discounted subtotal of 8000, FREESHIP is worth nothing: shipping
/// is the same as with no coupon. Any code other than FREESHIP never changes
/// shipping.
pub proof fn coupon_matters_for_shipping_only_as_freeship_from_threshold(
    customer_type: CustomerType,
    country: Seq<char>,
    coupon: Seq<char>,
    discounted_subtotal: int,
    black_friday: bool,
)
    requires
        coupon != "FREESHIP"@ || discounted_subtotal < 8_000,
    ensures
        shipping_spec(customer_type, country, coupon, discounted_subtotal, black_friday)
            == shipping_spec(customer_type, country, ""@, discounted_subtotal, black_friday),
{
    lemma_shipping_codes_distinct();
}

/// An employee pays exactly 500 more than a regular customer outside IT, and
/// the same in IT.
pub proof fn employee_surcharge_over_regular(
    country: Seq<char>,
    coupon: Seq<char>,
    discounted_subtotal: int,
    black_friday: bool,
)
    ensures
        country != "IT"@ ==> shipping_spec(
            CustomerType::Employee,
            country,
            coupon,
            discounted_subtotal,
            black_friday,
        ) == shipping_spec(CustomerType::Regular, country, coupon, discounted_subtotal, black_friday)
            + 500,
        country == "IT"@ ==> shipping_spec(
            CustomerType::Employee,
            country,
            coupon,
            discounted_subtotal,
            black_friday,
        ) == shipping_spec(CustomerType::Regular, country, coupon, discounted_subtotal, black_friday),
{
}

/// VIP and partner customers ship free from a discounted subtotal of 15000,
/// premium customers from 20000; below their threshold, and always for new
/// and unknown customers, shipping is what a regular customer pays.
pub proof fn customer_free_shipping_thresholds(
    customer_type: CustomerType,
    country: Seq<char>,
    coupon: Seq<char>,
    discounted_subtotal: int,
    black_friday: bool,
)
    ensures
        (customer_type == CustomerType::Vip || customer_type == CustomerType::Partner)
            && discounted_subtotal >= 15_000 ==> shipping_spec(
            customer_type,
            country,
            coupon,
            discounted_subtotal,
            black_friday,
        ) == 0,
        customer_type == CustomerType::Premium && discounted_subtotal >= 20_000 ==> shipping_spec(
            customer_type,
            country,
            coupon,
            discounted_subtotal,
            black_friday,
        ) == 0,
        (customer_type == CustomerType::Vip || customer_type == CustomerType::Partner)
            && discounted_subtotal < 15_000 ==> shipping_spec(
            customer_type,
            country,
            coupon,
            discounted_subtotal,
            black_friday,
        ) == shipping_spec(CustomerType::Regular, country, coupon, discounted_subtotal, black_friday),
        customer_type == CustomerType::Premium && discounted_subtotal < 20_000 ==> shipping_spec(
            customer_type,
            country,
            coupon,
            discounted_subtotal,
            black_friday,
        ) == shipping_spec(CustomerType::Regular, country, coupon, discounted_subtotal, black_friday),
        (customer_type == CustomerType::New || customer_type == CustomerType::Unknown)
            ==> shipping_spec(customer_type, country, coupon, discounted_subtotal, black_friday)
            == shipping_spec(CustomerType::Regular, country, coupon, discounted_subtotal, black_friday),
{
}

} // verus!
