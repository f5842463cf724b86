//! Rules for purchase orders, receipts, corrections and licenses.
use vstd::prelude::*;
use crate::problem::Problem;
use crate::text::blank;
use crate::text::is_blank;
use crate::text::string_from_chars;
use crate::text::text_equals;
use crate::text::trim;
use crate::text::trimmed;
use crate::text::utf8_len;
use crate::text::utf8_len_within;

verus! {

/// A purchase order needs an id and a number that are not blank.
pub fn validate_purchase_order(purchase_order_id: &str, po_number: &str) -> (r: Result<(), Problem>)
    ensures
        r == (if is_blank(purchase_order_id@) || is_blank(po_number@) {
            Err::<(), Problem>(Problem::InvalidPurchaseOrder)
        } else {
            Ok::<(), Problem>(())
        }),
{
    if blank(purchase_order_id) || blank(po_number) {
        Err(Problem::InvalidPurchaseOrder)
    } else {
        Ok(())
    }
}

/// A receipt can be saved only against a purchase order of the same site, and never once
/// it is finalized.
pub fn receipt_save_check(owns_purchase_order: bool, existing_state: Option<&str>) -> (r: Result<
    (),
    Problem,
>)
    ensures
        r == (if !owns_purchase_order {
            Err::<(), Problem>(Problem::PurchaseOrderForbidden)
        } else if existing_state matches Some(s) && s@ == "finalized"@ {
            Err::<(), Problem>(Problem::ReceiptFinalized)
        } else {
            Ok::<(), Problem>(())
        }),
{
    if !owns_purchase_order {
        return Err(Problem::PurchaseOrderForbidden);
    }
    match existing_state {
        Some(s) => {
            if text_equals(s, "finalized") {
                Err(Problem::ReceiptFinalized)
            } else {
                Ok(())
            }
        },
        None => Ok(()),
    }
}

/// The longest correction reason, in UTF-8 bytes once trimmed.
pub open spec fn max_reason_bytes() -> nat {
    1000
}

/// A correction reason is trimmed and must then hold 1 to 1000 bytes.
pub fn validate_correction(reason: &str) -> (r: Result<String, Problem>)
    ensures
        (trim(reason@).len() == 0 || utf8_len(trim(reason@)) > max_reason_bytes()) ==> r
            == Err::<String, Problem>(Problem::InvalidCorrection),
        !(trim(reason@).len() == 0 || utf8_len(trim(reason@)) > max_reason_bytes()) ==> (r matches Ok(
            t,
        ) && t@ == trim(reason@)),
{
    let t = trimmed(reason);
    if t.len() == 0 || !utf8_len_within(t.as_slice(), 1000) {
        Err(Problem::InvalidCorrection)
    } else {
        Ok(string_from_chars(t.as_slice()))
    }
}

/// Attaching a license is not offered: a blank token is refused as such, any other token
/// with the notice that checkout is unavailable.
pub fn license_outcome(license: &str) -> (p: Problem)
    ensures
        p == (if is_blank(license@) {
            Problem::InvalidLicense
        } else {
            Problem::CheckoutUnavailable
        }),
{
    if blank(license) {
        Problem::InvalidLicense
    } else {
        Problem::CheckoutUnavailable
    }
}

/// The service is ready once its open database can take a write lock and its evidence
/// directory can be written.
pub fn readiness(database_writable: bool, evidence_writable: bool) -> (r: Result<(), Problem>)
    ensures
        r == (if database_writable && evidence_writable {
            Ok::<(), Problem>(())
        } else {
            Err::<(), Problem>(Problem::NotReady)
        }),
{
    if database_writable && evidence_writable {
        Ok(())
    } else {
        Err(Problem::NotReady)
    }
}

} // verus!
