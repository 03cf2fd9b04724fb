use vstd::prelude::*;

use crate::action::{next_ticket, ActionRunner};
use crate::error::ClientError;
use crate::resource::ResourceCache;
use crate::station::{Commodity, Station};

verus! {

/// The body of a commodity update: the price to set and whether the
/// commodity is on sale.
#[derive(Clone, Debug, PartialEq, Eq)]
pub struct CommodityUpdate {
    pub id: String,
    pub price: i32,
    pub is_available: bool,
}

pub open spec fn is_digit(c: char) -> bool {
    '0' <= c && c <= '9'
}

/// The value of a run of decimal digits.
pub open spec fn digits_value(s: Seq<char>) -> int
    decreases s.len(),
{
    if s.len() == 0 {
        0
    } else {
        digits_value(s.drop_last()) * 10 + (s.last() as u32 - '0' as u32)
    }
}

/// An optional sign followed by at least one decimal digit.
pub open spec fn integer_value(s: Seq<char>) -> Option<int> {
    let negative = s.len() > 0 && s[0] == '-';
    let digits = if s.len() > 0 && (s[0] == '-' || s[0] == '+') {
        s.drop_first()
    } else {
        s
    };
    if digits.len() > 0 && forall|i: int| 0 <= i < digits.len() ==> is_digit(#[trigger] digits[i]) {
        Some(if negative { -digits_value(digits) } else { digits_value(digits) })
    } else {
        None
    }
}

/// The `i32` a text denotes, if any.
pub open spec fn parsed_i32(s: Seq<char>) -> Option<i32> {
    match integer_value(s) {
        Some(v) => if i32::MIN <= v <= i32::MAX {
            Some(v as i32)
        } else {
            None
        },
        None => None,
    }
}

/// Relies on `<i32 as FromStr>::from_str`: an optional `+` or `-`, then one
/// or more ASCII digits, whose value must fit; anything else is an error.
#[verifier::external_body]
fn parse_i32(text: &str) -> (r: Option<i32>)
    ensures
        r == parsed_i32(text@),
{
    text.parse::<i32>().ok()
}

/// Setting a price also decides availability: a price of zero takes the
/// commodity off sale.
pub open spec fn price_update_spec(id: Seq<char>, price: i32, u: CommodityUpdate) -> bool {
    &&& u.id@ == id
    &&& u.price == price
    &&& u.is_available == (price != 0)
}

pub fn price_update(id: String, price: i32) -> (u: CommodityUpdate)
    ensures
        price_update_spec(id@, price, u),
{
    CommodityUpdate { id, price, is_available: price != 0 }
}

/// Turns the text of the price field into an update, when it is an integer.
pub fn submit_price(id: String, text: &str) -> (r: Option<CommodityUpdate>)
    ensures
        r is Some <==> parsed_i32(text@) is Some,
        r matches Some(u) ==> price_update_spec(id@, parsed_i32(text@)->0, u),
{
    match parse_i32(text) {
        Some(price) => Some(price_update(id, price)),
        None => None,
    }
}

pub open spec fn price_first_text() -> Seq<char> {
    "Please update price first"@
}

/// Decides what flipping the availability switch of `commodity` to `checked`
/// does. Putting an unpriced commodity on sale is refused locally, and no
/// update is made; otherwise the update keeps the current price.
pub fn toggle_availability(commodity: &Commodity, checked: bool) -> (r: Result<
    CommodityUpdate,
    ClientError,
>)
    ensures
        checked && commodity.price <= 0 ==> (r matches Err(ClientError::Validation { field, message })
            && field@ == "is_available"@ && message@ == price_first_text()),
        !(checked && commodity.price <= 0) ==> (r matches Ok(u) && u.id@ == commodity.id@
            && u.price == commodity.price && u.is_available == checked),
{
    if checked && commodity.price <= 0 {
        Err(
            ClientError::Validation {
                field: String::from_str("is_available"),
                message: String::from_str("Please update price first"),
            },
        )
    } else {
        Ok(CommodityUpdate { id: commodity.id.clone(), price: commodity.price, is_available: checked })
    }
}

/// Handles a flip of the availability switch: a permitted change is
/// dispatched on `runner`, and the ticket for its result returned; a refused
/// one leaves `runner` untouched, so no request is made.
pub fn request_toggle(
    runner: &mut ActionRunner<CommodityUpdate, ()>,
    commodity: &Commodity,
    checked: bool,
) -> (r: Result<u64, ClientError>)
    ensures
        checked && commodity.price <= 0 ==> final(runner)@ == old(runner)@,
        checked && commodity.price <= 0 ==> (r matches Err(ClientError::Validation { message, .. })
            && message@ == price_first_text()),
        !(checked && commodity.price <= 0) ==> r == Ok::<u64, ClientError>(
            final(runner)@.latest,
        ),
        !(checked && commodity.price <= 0) ==> final(runner)@.latest == next_ticket(old(runner)@.latest),
        !(checked && commodity.price <= 0) ==> final(runner)@.value == old(runner)@.value,
        !(checked && commodity.price <= 0) ==> (final(runner)@.pending_input matches Some(u)
            && u.id@ == commodity.id@ && u.price == commodity.price && u.is_available == checked),
{
    match toggle_availability(commodity, checked) {
        Ok(update) => Ok(runner.dispatch(update)),
        Err(e) => Err(e),
    }
}

/// Handles the save button of the price editor: a price that parses is
/// dispatched on `runner` and the ticket for its result returned; any other
/// text changes nothing.
pub fn request_price_update(
    runner: &mut ActionRunner<CommodityUpdate, ()>,
    id: String,
    text: &str,
) -> (r: Option<u64>)
    ensures
        r is Some <==> parsed_i32(text@) is Some,
        r is None ==> final(runner)@ == old(runner)@,
        r is Some ==> (r == Some(final(runner)@.latest) && final(runner)@.latest
            == next_ticket(old(runner)@.latest) && final(runner)@.value == old(runner)@.value),
        r is Some ==> (final(runner)@.pending_input matches Some(u) && price_update_spec(
            id@,
            parsed_i32(text@)->0,
            u,
        )),
{
    match submit_price(id, text) {
        Some(update) => Some(runner.dispatch(update)),
        None => None,
    }
}

/// Whether an update of the commodity `id` is pending: the busy indicator of
/// that one row.
pub fn row_is_busy(runner: &ActionRunner<CommodityUpdate, ()>, id: &String) -> (r: bool)
    ensures
        r == (runner@.pending_input matches Some(u) && u.id@ == id@),
{
    match runner.pending_input() {
        Some(u) => u.id == *id,
        None => false,
    }
}

/// Settles an update and, when it is the latest and succeeded, starts a
/// reload of the station so that the page shows what the server now holds.
/// Returns the ticket of that reload.
pub fn finish_update(
    runner: &mut ActionRunner<CommodityUpdate, ()>,
    station: &mut ResourceCache<Station>,
    ticket: u64,
    result: Result<(), ClientError>,
) -> (reload: Option<u64>)
    ensures
        final(runner)@ == old(runner)@.after_settle(ticket, result),
        ({
            let refresh = ticket == old(runner)@.latest && old(runner)@.pending() && result is Ok;
            &&& refresh ==> final(station)@ == old(station)@.after_refetch() && reload == Some(
                final(station)@.latest,
            )
            &&& !refresh ==> final(station)@ == old(station)@ && reload is None
        }),
{
    let ok = result.is_ok();
    let taken = runner.settle(ticket, result);
    if taken && ok {
        Some(station.refetch())
    } else {
        None
    }
}

} // verus!
