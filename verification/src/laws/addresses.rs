//! What holds of the addresses of a payment.

use vstd::prelude::*;
use crate::enums::MandateTransactionType;
use crate::errors::ApiErrorResponse;
use crate::payment_confirm::spec_get_trackers;
use crate::payment_data::MandateResolutionView;
use crate::pipeline::spec_resolve_address;
use crate::request::PaymentsRequestView;
use crate::resolver::{spec_address_action, AddressActionView};
use crate::storage::{AddressView, MerchantAccountView, PaymentAttemptView, PaymentIntentView};
use crate::store::{address_key, lemma_first_index_is_first, spec_find_address, MemoryStoreView};
use crate::surcharge::SessionSurcharge;

verus! {

/// Resolving a stored address that the request does not override reads it:
/// the store is left as it was, no address is created, and resolving it
/// again gives the same record.
pub proof fn law_address_resolution_is_idempotent(
    store: MemoryStoreView,
    stored_address_id: Seq<char>,
    first_fresh_id: Seq<char>,
    second_fresh_id: Seq<char>,
    merchant_id: Seq<char>,
    customer_id: Option<Seq<char>>,
    payment_id: Seq<char>,
    first_time: i64,
    second_time: i64,
)
    ensures
        spec_address_action(None, Some(stored_address_id)) == (AddressActionView::Find {
            address_id: stored_address_id,
        }),
        spec_resolve_address(
            store,
            spec_address_action(None, Some(stored_address_id)),
            first_fresh_id,
            merchant_id,
            customer_id,
            payment_id,
            first_time,
        ).0 == store,
        spec_resolve_address(
            store,
            spec_address_action(None, Some(stored_address_id)),
            second_fresh_id,
            merchant_id,
            customer_id,
            payment_id,
            second_time,
        ) == spec_resolve_address(
            store,
            spec_address_action(None, Some(stored_address_id)),
            first_fresh_id,
            merchant_id,
            customer_id,
            payment_id,
            first_time,
        ),
{
}

/// A stored address that the request does not override is the address of
/// the aggregate: resolving it gives the stored row and leaves the store,
/// and with it the number of its addresses, as it was, and a reconciliation
/// that succeeds with that row notes the row and its identifier on the
/// aggregate. So it is for the shipping address and for the billing address.
pub proof fn law_stored_address_is_the_aggregates(
    store: MemoryStoreView,
    stored_address_id: Seq<char>,
    row: AddressView,
    fresh_id: Seq<char>,
    request: PaymentsRequestView,
    mandate_type: Option<MandateTransactionType>,
    merchant_account: MerchantAccountView,
    intent: PaymentIntentView,
    attempt: PaymentAttemptView,
    mandate: MandateResolutionView,
    other: Option<AddressView>,
    session: SessionSurcharge,
    now: i64,
)
    requires
        spec_find_address(store, intent.merchant_id, stored_address_id) == Some(row),
    ensures
        row.address_id == stored_address_id,
        spec_resolve_address(
            store,
            spec_address_action(None, Some(stored_address_id)),
            fresh_id,
            intent.merchant_id,
            intent.customer_id,
            intent.payment_id,
            now,
        ) == (store, Ok::<Option<AddressView>, ApiErrorResponse>(Some(row))),
        match spec_get_trackers(
            request,
            mandate_type,
            merchant_account,
            intent,
            attempt,
            mandate,
            Some(row),
            other,
            session,
            now,
        ) {
            Ok(found) => found.0.payment_intent.shipping_address_id == Some(stored_address_id)
                && found.0.shipping == Some(row),
            Err(_) => true,
        },
        match spec_get_trackers(
            request,
            mandate_type,
            merchant_account,
            intent,
            attempt,
            mandate,
            other,
            Some(row),
            session,
            now,
        ) {
            Ok(found) => found.0.payment_intent.billing_address_id == Some(stored_address_id)
                && found.0.billing == Some(row),
            Err(_) => true,
        },
{
    lemma_first_index_is_first(store.addresses, address_key(intent.merchant_id, stored_address_id));
}

} // verus!
