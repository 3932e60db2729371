//! Tax rules: a rate by country, a reduced rate for VIP customers in IT, and
//! the TAXFREE coupon outside IT.
use vstd::prelude::*;

use crate::customer_type::CustomerType;
use crate::text::text_equals;

verus! {

pub const IT_TAX_PERCENT: i32 = 22;

pub const VIP_IT_TAX_PERCENT: i32 = 20;

pub const DE_TAX_PERCENT: i32 = 19;

pub const US_TAX_PERCENT: i32 = 7;

/// Tax rate, in percent, of a country code (matched exactly).
pub open spec fn base_tax_spec(country: Seq<char>) -> int {
    if country == "IT"@ {
        IT_TAX_PERCENT as int
    } else if country == "DE"@ {
        DE_TAX_PERCENT as int
    } else if country == "US"@ {
        US_TAX_PERCENT as int
    } else {
        0
    }
}

/// Tax rate, in percent: none with the TAXFREE coupon outside IT, the reduced
/// rate for a VIP customer in IT, and the country rate otherwise.
pub open spec fn tax_percent_spec(
    customer_type: CustomerType,
    country: Seq<char>,
    coupon: Seq<char>,
) -> int {
    if coupon == "TAXFREE"@ && country != "IT"@ {
        0
    } else if customer_type == CustomerType::Vip && country == "IT"@ {
        VIP_IT_TAX_PERCENT as int
    } else {
        base_tax_spec(country)
    }
}

/// Tax rate, in percent, of a country code.
pub fn base_tax_percent(country: &str) -> (r: i32)
    ensures
        r == base_tax_spec(country@),
{
    if text_equals(country, "IT") {
        IT_TAX_PERCENT
    } else if text_equals(country, "DE") {
        DE_TAX_PERCENT
    } else if text_equals(country, "US") {
        US_TAX_PERCENT
    } else {
        0
    }
}

/// Tax rate, in percent, for a customer kind, a country code and a coupon code.
pub fn calculate_tax_percent(customer_type: CustomerType, country: &str, coupon: &str) -> (r: i32)
    ensures
        r == tax_percent_spec(customer_type, country@, coupon@),
        0 <= r <= IT_TAX_PERCENT,
{
    // 1. rate by country
    let mut tax_percent = base_tax_percent(country);
    let is_it = text_equals(country, "IT");

    // 2. reduced rate for VIP customers in IT
    if customer_type == CustomerType::Vip && is_it {
        tax_percent = VIP_IT_TAX_PERCENT;
    }

    // 3. TAXFREE coupon, outside IT only
    if text_equals(coupon, "TAXFREE") && !is_it {
        tax_percent = 0;
    }
    tax_percent
}

/// The TAXFREE coupon has no effect in IT: the rate there is the one without
/// any coupon.
pub proof fn taxfree_has_no_effect_in_it(customer_type: CustomerType)
    ensures
        tax_percent_spec(customer_type, "IT"@, "TAXFREE"@) == tax_percent_spec(
            customer_type,
            "IT"@,
            ""@,
        ),
{
}

/// The country codes and coupon code that the tax rules know, and the empty
/// code, are pairwise different texts.
proof fn lemma_tax_codes_distinct()
    ensures
        "IT"@ != "DE"@,
        "IT"@ != "US"@,
        "DE"@ != "US"@,
        ""@ != "TAXFREE"@,
{
    reveal_strlit("IT");
    reveal_strlit("DE");
    reveal_strlit("US");
    reveal_strlit("");
    reveal_strlit("TAXFREE");
    assert("IT"@[0] == 'I');
    assert("DE"@[0] == 'D');
    assert("US"@[0] == 'U');
    assert(""@.len() == 0);
    assert("TAXFREE"@.len() == 7);
}

/// Without coupon, a customer other than VIP pays the country rate: 22 in IT,
/// 19 in DE, 7 in the US and nothing elsewhere; a VIP pays 20 in IT and the
/// country rate elsewhere.
pub proof fn tax_rate_by_country_and_customer(customer_type: CustomerType, country: Seq<char>)
    ensures
        tax_percent_spec(customer_type, country, ""@) == if country == "IT"@ {
            if customer_type == CustomerType::Vip {
                20int
            } else {
                22
            }
        } else if country == "DE"@ {
            19
        } else if country == "US"@ {
            7
        } else {
            0
        },
{
    lemma_tax_codes_distinct();
}

/// Outside IT, TAXFREE makes the rate zero for every customer kind.
pub proof fn taxfree_zeroes_tax_outside_it(customer_type: CustomerType, country: Seq<char>)
    requires
        country != "IT"@,
    ensures
        tax_percent_spec(customer_type, country, "TAXFREE"@) == 0,
{
}

/// A code other than TAXFREE never changes the tax rate.
pub proof fn other_coupons_do_not_change_tax(
    customer_type: CustomerType,
    country: Seq<char>,
    coupon: Seq<char>,
)
    requires
        coupon != "TAXFREE"@,
    ensures
        tax_percent_spec(customer_type, country, coupon) == tax_percent_spec(
            customer_type,
            country,
            ""@,
        ),
{
    lemma_tax_codes_distinct();
}

} // verus!
