//! Checkout pricing: the total, in cents, of an order, from its customer kind,
//! subtotal, destination country, coupon code and whether it is Black Friday.
//!
//! The rules live in one module each: [`discount`], [`shipping`] and [`tax`];
//! [`customer_type`] reads the customer kind and [`text`] holds the string
//! helpers they share. This module puts them together.
use vstd::prelude::*;

pub mod customer_type;
pub mod discount;
pub mod shipping;
pub mod tax;
pub mod text;

use crate::customer_type::{customer_type_named, CustomerType};
use crate::discount::{calculate_discount_percent, discount_percent_spec, MAX_DISCOUNT_PERCENT};
use crate::shipping::{
    calculate_shipping_cents, shipping_spec, EMPLOYEE_NON_IT_SURCHARGE_CENTS, OTHER_SHIPPING_CENTS,
};
use crate::tax::{calculate_tax_percent, tax_percent_spec, IT_TAX_PERCENT};
use crate::text::{all_white_space, lemma_trimmed_ignores_padding, trim_text, trimmed};

verus! {

/// An order as the caller gives it; text fields may carry surrounding
/// whitespace.
#[derive(Debug, Clone)]
pub struct Order {
    pub customer_type: String,
    pub subtotal_cents: i32,
    pub country: String,
    pub coupon_code: String,
    pub black_friday: bool,
}

/// `percent` percent of `amount`, rounded toward zero as integer division
/// does.
pub open spec fn percent_of(amount: int, percent: int) -> int {
    let scaled = amount * percent;
    if scaled >= 0 {
        scaled / 100
    } else {
        -((-scaled) / 100)
    }
}

/// The customer kind of an order.
pub open spec fn order_customer_type(order: &Order) -> CustomerType {
    customer_type_named(order.customer_type@)
}

/// The discount, in percent, of an order.
pub open spec fn order_discount_percent(order: &Order) -> int {
    discount_percent_spec(
        order_customer_type(order),
        order.subtotal_cents as int,
        trimmed(order.coupon_code@),
        order.black_friday,
    )
}

/// The subtotal of an order after its discount.
pub open spec fn order_discounted_subtotal(order: &Order) -> int {
    percent_of(order.subtotal_cents as int, 100 - order_discount_percent(order))
}

/// The shipping, in cents, of an order.
pub open spec fn order_shipping_cents(order: &Order) -> int {
    shipping_spec(
        order_customer_type(order),
        trimmed(order.country@),
        trimmed(order.coupon_code@),
        order_discounted_subtotal(order),
        order.black_friday,
    )
}

/// The tax rate, in percent, of an order.
pub open spec fn order_tax_percent(order: &Order) -> int {
    tax_percent_spec(order_customer_type(order), trimmed(order.country@), trimmed(order.coupon_code@))
}

/// The tax, in cents, of an order: its tax rate applied to the discounted
/// subtotal.
pub open spec fn order_tax_cents(order: &Order) -> int {
    percent_of(order_discounted_subtotal(order), order_tax_percent(order))
}

/// The total, in cents, of an order: discounted subtotal, shipping and tax,
/// and never below zero.
pub open spec fn order_total_cents(order: &Order) -> int {
    let sum = order_discounted_subtotal(order) + order_shipping_cents(order) + order_tax_cents(
        order,
    );
    if sum < 0 {
        0
    } else {
        sum
    }
}

/// `x` is a value of `i32`.
pub open spec fn fits_i32(x: int) -> bool {
    i32::MIN <= x <= i32::MAX
}

/// Every intermediate amount of the total of `order` fits in an `i32`: the
/// scaled subtotal, the scaled tax, and the running sum.
pub open spec fn order_total_fits_i32(order: &Order) -> bool {
    let discounted = order_discounted_subtotal(order);
    &&& fits_i32(order.subtotal_cents * (100 - order_discount_percent(order)))
    &&& fits_i32(discounted * order_tax_percent(order))
    &&& fits_i32(discounted + order_shipping_cents(order))
    &&& fits_i32(discounted + order_shipping_cents(order) + order_tax_cents(order))
}

/// An order with its text fields trimmed and its customer kind read.
struct NormalizedOrder {
    customer_type: CustomerType,
    subtotal_cents: i32,
    country: String,
    coupon_code: String,
    black_friday: bool,
}

impl NormalizedOrder {
    fn from(order: &Order) -> (r: Self)
        ensures
            r.customer_type == order_customer_type(order),
            r.subtotal_cents == order.subtotal_cents,
            r.country@ == trimmed(order.country@),
            r.coupon_code@ == trimmed(order.coupon_code@),
            r.black_friday == order.black_friday,
    {
        NormalizedOrder {
            customer_type: CustomerType::from_str(order.customer_type.as_str()),
            subtotal_cents: order.subtotal_cents,
            country: safe(order.country.as_str()),
            coupon_code: safe(order.coupon_code.as_str()),
            black_friday: order.black_friday,
        }
    }
}

/// `value` without leading and trailing whitespace.
fn safe(value: &str) -> (r: String)
    ensures
        r@ == trimmed(value@),
{
    trim_text(value).to_owned()
}

fn discount_percent(order: &NormalizedOrder) -> (r: i32)
    ensures
        r == discount_percent_spec(
            order.customer_type,
            order.subtotal_cents as int,
            order.coupon_code@,
            order.black_friday,
        ),
        0 <= r <= MAX_DISCOUNT_PERCENT,
{
    calculate_discount_percent(
        order.customer_type,
        order.subtotal_cents,
        order.coupon_code.as_str(),
        order.black_friday,
    )
}

/// The subtotal after a discount of `discount_percent` percent, rounded
/// toward zero.
pub fn discounted_subtotal(subtotal_cents: i32, discount_percent: i32) -> (r: i32)
    requires
        fits_i32(100 - discount_percent),
        fits_i32(subtotal_cents * (100 - discount_percent)),
    ensures
        r == percent_of(subtotal_cents as int, 100 - discount_percent),
        0 <= subtotal_cents && 0 <= discount_percent <= 100 ==> 0 <= r <= subtotal_cents,
{
    let r = subtotal_cents * (100 - discount_percent) / 100;
    proof {
        if 0 <= subtotal_cents && 0 <= discount_percent <= 100 {
            let s = subtotal_cents as int;
            let k = 100 - discount_percent as int;
            assert(0 <= s * k <= s * 100) by (nonlinear_arith)
                requires
                    0 <= s,
                    0 <= k <= 100,
            ;
        }
    }
    r
}

fn shipping_cents(order: &NormalizedOrder, discounted_subtotal: i32) -> (r: i32)
    ensures
        r == shipping_spec(
            order.customer_type,
            order.country@,
            order.coupon_code@,
            discounted_subtotal as int,
            order.black_friday,
        ),
        0 <= r <= OTHER_SHIPPING_CENTS + EMPLOYEE_NON_IT_SURCHARGE_CENTS,
{
    calculate_shipping_cents(
        order.customer_type,
        order.country.as_str(),
        order.coupon_code.as_str(),
        discounted_subtotal,
        order.black_friday,
    )
}

fn tax_percent(order: &NormalizedOrder) -> (r: i32)
    ensures
        r == tax_percent_spec(order.customer_type, order.country@, order.coupon_code@),
        0 <= r <= IT_TAX_PERCENT,
{
    calculate_tax_percent(order.customer_type, order.country.as_str(), order.coupon_code.as_str())
}

/// The total, in cents, of an order.
pub fn calculate_total_cents(order: &Order) -> (r: i32)
    requires
        order_total_fits_i32(order),
    ensures
        r == order_total_cents(order),
        r >= 0,
{
    let order = NormalizedOrder::from(order);
    let discount_percent = discount_percent(&order);
    let discounted_subtotal = discounted_subtotal(order.subtotal_cents, discount_percent);
    let shipping_cents = shipping_cents(&order, discounted_subtotal);
    let tax_percent = tax_percent(&order);
    let tax_cents = discounted_subtotal * tax_percent / 100;
    let total = discounted_subtotal + shipping_cents + tax_cents;
    if total < 0 {
        0
    } else {
        total
    }
}

/// Whitespace around the customer kind, the country or the coupon code does
/// not change the total: an order whose text fields are those of `order`
/// padded with whitespace costs the same as `order`.
pub proof fn total_ignores_surrounding_whitespace(
    order: &Order,
    padded: &Order,
    customer_before: Seq<char>,
    customer_after: Seq<char>,
    country_before: Seq<char>,
    country_after: Seq<char>,
    coupon_before: Seq<char>,
    coupon_after: Seq<char>,
)
    requires
        all_white_space(customer_before),
        all_white_space(customer_after),
        all_white_space(country_before),
        all_white_space(country_after),
        all_white_space(coupon_before),
        all_white_space(coupon_after),
        padded.customer_type@ == customer_before + order.customer_type@ + customer_after,
        padded.country@ == country_before + order.country@ + country_after,
        padded.coupon_code@ == coupon_before + order.coupon_code@ + coupon_after,
        padded.subtotal_cents == order.subtotal_cents,
        padded.black_friday == order.black_friday,
    ensures
        order_total_cents(padded) == order_total_cents(order),
        order_total_fits_i32(padded) == order_total_fits_i32(order),
{
    lemma_trimmed_ignores_padding(customer_before, order.customer_type@, customer_after);
    lemma_trimmed_ignores_padding(country_before, order.country@, country_after);
    lemma_trimmed_ignores_padding(coupon_before, order.coupon_code@, coupon_after);
}

/// The total is the discounted subtotal, plus shipping computed on exactly that
/// discounted subtotal, plus tax on it, never below zero; the discounted
/// subtotal is the subtotal less the order's discount, rounded toward zero.
pub proof fn total_is_discount_then_shipping_then_tax(order: &Order)
    ensures
        ({
            let customer = customer_type_named(order.customer_type@);
            let country = trimmed(order.country@);
            let coupon = trimmed(order.coupon_code@);
            let discount = discount_percent_spec(
                customer,
                order.subtotal_cents as int,
                coupon,
                order.black_friday,
            );
            let discounted = percent_of(order.subtotal_cents as int, 100 - discount);
            let shipping = shipping_spec(customer, country, coupon, discounted, order.black_friday);
            let tax = percent_of(discounted, tax_percent_spec(customer, country, coupon));
            order_total_cents(order) == if discounted + shipping + tax < 0 {
                0
            } else {
                discounted + shipping + tax
            }
        }),
{
}

proof fn lemma_freeship_is_no_other_code()
    ensures
        "FREESHIP"@ != "SAVE10"@,
        "FREESHIP"@ != "VIPONLY"@,
        "FREESHIP"@ != "BULK"@,
        "FREESHIP"@ != "PARTNER5"@,
        "FREESHIP"@ != "TAXFREE"@,
        ""@ != "SAVE10"@,
        ""@ != "VIPONLY"@,
        ""@ != "BULK"@,
        ""@ != "PARTNER5"@,
        ""@ != "TAXFREE"@,
{
    reveal_strlit("FREESHIP");
    reveal_strlit("SAVE10");
    reveal_strlit("VIPONLY");
    reveal_strlit("BULK");
    reveal_strlit("PARTNER5");
    reveal_strlit("TAXFREE");
    reveal_strlit("");
    assert("FREESHIP"@.len() == 8);
    assert("SAVE10"@.len() == 6);
    assert("VIPONLY"@.len() == 7);
    assert("BULK"@.len() == 4);
    assert("PARTNER5"@.len() == 8);
    assert("TAXFREE"@.len() == 7);
    assert(""@.len() == 0);
    assert("FREESHIP"@[0] == 'F');
    assert("PARTNER5"@[0] == 'P');
}

/// FREESHIP is judged on the discounted subtotal: when the discounted
/// subtotal is below 8000, an order with FREESHIP costs exactly what the same
/// order without coupon costs, whatever its subtotal before discount.
pub proof fn freeship_below_discounted_threshold_changes_nothing(order: &Order, plain: &Order)
    requires
        trimmed(order.coupon_code@) == "FREESHIP"@,
        trimmed(plain.coupon_code@) == ""@,
        plain.customer_type@ == order.customer_type@,
        plain.country@ == order.country@,
        plain.subtotal_cents == order.subtotal_cents,
        plain.black_friday == order.black_friday,
        order_discounted_subtotal(order) < 8_000,
    ensures
        order_discounted_subtotal(plain) == order_discounted_subtotal(order),
        order_shipping_cents(plain) == order_shipping_cents(order),
        order_total_cents(plain) == order_total_cents(order),
{
    lemma_freeship_is_no_other_code();
    let customer = customer_type_named(order.customer_type@);
    let country = trimmed(order.country@);
    let subtotal = order.subtotal_cents as int;
    crate::discount::unknown_coupon_adds_nothing(customer, subtotal, "FREESHIP"@, order.black_friday);
    let d = order_discounted_subtotal(order);
    crate::shipping::coupon_matters_for_shipping_only_as_freeship_from_threshold(
        customer,
        country,
        "FREESHIP"@,
        d,
        order.black_friday,
    );
    crate::tax::other_coupons_do_not_change_tax(customer, country, "FREESHIP"@);
}

/// `percent_of` is the exact share rounded toward zero: for a non-negative
/// amount it is the largest whole number of cents not above
/// `amount * percent / 100`, and a negative amount gives the negated share.
pub proof fn percent_of_rounds_toward_zero(amount: int, percent: int)
    requires
        0 <= percent,
    ensures
        amount >= 0 ==> 0 <= amount * percent - 100 * percent_of(amount, percent) < 100,
        amount >= 0 ==> percent_of(amount, percent) >= 0,
        percent_of(-amount, percent) == -percent_of(amount, percent),
{
    assert((-amount) * percent == -(amount * percent)) by (nonlinear_arith);
    if amount >= 0 {
        assert(amount * percent >= 0) by (nonlinear_arith)
            requires
                amount >= 0,
                percent >= 0,
        ;
    } else {
        assert((-amount) * percent >= 0) by (nonlinear_arith)
            requires
                amount < 0,
                percent >= 0,
        ;
    }
    if amount * percent == 0 {
        assert((-amount) * percent == 0);
    }
}

} // verus!
