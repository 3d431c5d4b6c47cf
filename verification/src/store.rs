//! An in-memory resource store and session cache: the reference for what the
//! confirm pipeline asks of the two.

use vstd::prelude::*;
use crate::errors::StorageError;
use crate::persistence::{spec_apply_attempt_update, spec_apply_intent_update};
use crate::request::{
    AddressDetails, AddressDetailsView, MerchantConnectorDetailsWrap,
    MerchantConnectorDetailsWrapView,
};
use crate::storage::{
    Address, AddressView, ConnectorCredentials, ConnectorCredentialsView, Customer, CustomerUpdate,
    CustomerUpdateView, CustomerView, PaymentAttempt, PaymentAttemptUpdate,
    PaymentAttemptUpdateView, PaymentAttemptView, PaymentIntent, PaymentIntentUpdate,
    PaymentIntentUpdateView, PaymentIntentView,
};
use crate::surcharge::{SessionSurcharge, SurchargeDetails, SurchargeKey, SurchargeKeyView};
use crate::views::{opt_view, or_else};

verus! {

/// The place of the first row that is wanted, if there is one.
pub open spec fn first_index<V>(rows: Seq<V>, wanted: spec_fn(V) -> bool) -> Option<int> {
    if exists|i: int| 0 <= i < rows.len() && wanted(#[trigger] rows[i]) {
        Some(
            choose|i: int|
                0 <= i < rows.len() && wanted(#[trigger] rows[i]) && forall|j: int|
                    0 <= j < i ==> !wanted(#[trigger] rows[j]),
        )
    } else {
        None
    }
}

/// The place that a search found, as a place in the model.
pub open spec fn place_view(place: Option<usize>) -> Option<int> {
    match place {
        Some(i) => Some(i as int),
        None => None,
    }
}

/// The outcome of adding a row: the store after it, or the refusal.
pub open spec fn written(res: Result<(), StorageError>, after: MemoryStoreView) -> Result<
    MemoryStoreView,
    StorageError,
> {
    match res {
        Ok(()) => Ok(after),
        Err(e) => Err(e),
    }
}

/// The row at an optional place.
pub open spec fn row_at<V>(rows: Seq<V>, place: Option<int>) -> Option<V> {
    match place {
        Some(i) => Some(rows[i]),
        None => None,
    }
}

/// A wanted row before which no row is wanted is the first.
pub proof fn lemma_first_index<V>(rows: Seq<V>, wanted: spec_fn(V) -> bool, i: int)
    requires
        0 <= i < rows.len(),
        wanted(rows[i]),
        forall|j: int| 0 <= j < i ==> !wanted(#[trigger] rows[j]),
    ensures
        first_index(rows, wanted) == Some(i),
{
    let c = choose|c: int|
        0 <= c < rows.len() && wanted(#[trigger] rows[c]) && forall|j: int|
            0 <= j < c ==> !wanted(#[trigger] rows[j]);
    assert(c == i) by {
        if c < i {
            assert(!wanted(rows[c]));
        }
        if i < c {
            assert(!wanted(rows[i]));
        }
    }
}

/// Where no row is wanted, there is no first.
pub proof fn lemma_first_index_none<V>(rows: Seq<V>, wanted: spec_fn(V) -> bool)
    requires
        forall|j: int| 0 <= j < rows.len() ==> !wanted(#[trigger] rows[j]),
    ensures
        first_index(rows, wanted).is_none(),
{
}

/// The first wanted row is wanted, and no row before it is.
pub proof fn lemma_first_index_is_first<V>(rows: Seq<V>, wanted: spec_fn(V) -> bool)
    ensures
        match first_index(rows, wanted) {
            Some(i) => 0 <= i < rows.len() && wanted(rows[i]) && forall|j: int|
                0 <= j < i ==> !wanted(#[trigger] rows[j]),
            None => forall|j: int| 0 <= j < rows.len() ==> !wanted(#[trigger] rows[j]),
        },
{
    if exists|i: int| 0 <= i < rows.len() && wanted(#[trigger] rows[i]) {
        let w = choose|i: int| 0 <= i < rows.len() && wanted(#[trigger] rows[i]);
        lemma_least_wanted(rows, wanted, w);
    }
}

/// Before a wanted row there is a first wanted row.
proof fn lemma_least_wanted<V>(rows: Seq<V>, wanted: spec_fn(V) -> bool, w: int)
    requires
        0 <= w < rows.len(),
        wanted(rows[w]),
    ensures
        exists|i: int|
            0 <= i < rows.len() && wanted(#[trigger] rows[i]) && forall|j: int|
                0 <= j < i ==> !wanted(#[trigger] rows[j]),
    decreases w,
{
    if exists|k: int| 0 <= k < w && wanted(#[trigger] rows[k]) {
        let k = choose|k: int| 0 <= k < w && wanted(#[trigger] rows[k]);
        lemma_least_wanted(rows, wanted, k);
    } else {
        assert(wanted(rows[w]) && forall|j: int| 0 <= j < w ==> !wanted(#[trigger] rows[j]));
    }
}

/// Adding a row at the end leaves the first wanted row where it was; where
/// there was none, the new row is the first if it is wanted.
pub proof fn lemma_first_index_after_push<V>(rows: Seq<V>, row: V, wanted: spec_fn(V) -> bool)
    ensures
        first_index(rows.push(row), wanted) == match first_index(rows, wanted) {
            Some(i) => Some(i),
            None => if wanted(row) {
                Some(rows.len() as int)
            } else {
                None
            },
        },
        first_index(rows, wanted).is_some() ==> rows.push(row)[first_index(rows, wanted).unwrap()]
            == rows[first_index(rows, wanted).unwrap()],
{
    lemma_first_index_is_first(rows, wanted);
    let after = rows.push(row);
    match first_index(rows, wanted) {
        Some(i) => {
            assert(after[i] == rows[i]);
            assert forall|j: int| 0 <= j < i implies !wanted(#[trigger] after[j]) by {
                assert(after[j] == rows[j]);
            }
            lemma_first_index(after, wanted, i);
        },
        None => {
            assert forall|j: int| 0 <= j < rows.len() implies !wanted(#[trigger] after[j]) by {
                assert(after[j] == rows[j]);
            }
            if wanted(row) {
                assert(after[rows.len() as int] == row);
                lemma_first_index(after, wanted, rows.len() as int);
            } else {
                assert forall|j: int| 0 <= j < after.len() implies !wanted(#[trigger] after[j]) by {
                    if j < rows.len() {
                        assert(after[j] == rows[j]);
                    }
                }
                lemma_first_index_none(after, wanted);
            }
        },
    }
}

/// Putting a row in the place of one that is wanted just as much leaves the
/// first wanted row where it was.
pub proof fn lemma_first_index_after_update<V>(
    rows: Seq<V>,
    place: int,
    row: V,
    wanted: spec_fn(V) -> bool,
)
    requires
        0 <= place < rows.len(),
        wanted(rows[place]) == wanted(row),
    ensures
        first_index(rows.update(place, row), wanted) == first_index(rows, wanted),
{
    lemma_first_index_is_first(rows, wanted);
    let after = rows.update(place, row);
    assert forall|j: int| 0 <= j < rows.len() implies wanted(#[trigger] after[j]) == wanted(
        rows[j],
    ) by {
        if j != place {
            assert(after[j] == rows[j]);
        }
    }
    match first_index(rows, wanted) {
        Some(i) => {
            assert(wanted(after[i]));
            lemma_first_index(after, wanted, i);
        },
        None => {
            lemma_first_index_none(after, wanted);
        },
    }
}

/// The rows of a store.
pub struct MemoryStore {
    intents: Vec<PaymentIntent>,
    attempts: Vec<PaymentAttempt>,
    addresses: Vec<Address>,
    customers: Vec<Customer>,
    credentials: Vec<ConnectorCredentials>,
}

/// The model of [`MemoryStore`]: its rows, in the order in which they were
/// added.
pub struct MemoryStoreView {
    pub intents: Seq<PaymentIntentView>,
    pub attempts: Seq<PaymentAttemptView>,
    pub addresses: Seq<AddressView>,
    pub customers: Seq<CustomerView>,
    pub credentials: Seq<ConnectorCredentialsView>,
}

impl View for MemoryStore {
    type V = MemoryStoreView;

    closed spec fn view(&self) -> MemoryStoreView {
        MemoryStoreView {
            intents: self.intents.deep_view(),
            attempts: self.attempts.deep_view(),
            addresses: self.addresses.deep_view(),
            customers: self.customers.deep_view(),
            credentials: self.credentials.deep_view(),
        }
    }
}

impl MemoryStoreView {
    /// The store without rows.
    pub open spec fn empty() -> MemoryStoreView {
        MemoryStoreView {
            intents: Seq::empty(),
            attempts: Seq::empty(),
            addresses: Seq::empty(),
            customers: Seq::empty(),
            credentials: Seq::empty(),
        }
    }
}

/// Holds of a row that is the intent of a payment of a merchant.
pub open spec fn intent_key(
    payment_id: Seq<char>,
    merchant_id: Seq<char>,
) -> spec_fn(PaymentIntentView) -> bool {
    |row: PaymentIntentView|
        row.payment_id == payment_id
        && row.merchant_id == merchant_id
}

/// The intent under a key, if the store has it: the first such row.
pub open spec fn spec_find_intent(
    store: MemoryStoreView,
    payment_id: Seq<char>,
    merchant_id: Seq<char>,
) -> Option<PaymentIntentView> {
    row_at(
        store.intents,
        first_index(store.intents, intent_key(payment_id, merchant_id)),
    )
}

/// The store after a row is added, or the refusal of a row whose key is
/// taken.
pub open spec fn spec_insert_payment_intent(
    store: MemoryStoreView,
    row: PaymentIntentView,
) -> Result<MemoryStoreView, StorageError> {
    let taken = first_index(
        store.intents,
        intent_key(row.payment_id, row.merchant_id),
    );
    if taken.is_some() {
        Err(StorageError::DuplicateValue)
    } else {
        Ok(MemoryStoreView { intents: store.intents.push(row), ..store })
    }
}

/// Holds of a row that is the attempt with an identifier, of a payment of a merchant.
pub open spec fn attempt_key(
    payment_id: Seq<char>,
    merchant_id: Seq<char>,
    attempt_id: Seq<char>,
) -> spec_fn(PaymentAttemptView) -> bool {
    |row: PaymentAttemptView|
        row.payment_id == payment_id
        && row.merchant_id == merchant_id
        && row.attempt_id == attempt_id
}

/// The attempt under a key, if the store has it: the first such row.
pub open spec fn spec_find_attempt(
    store: MemoryStoreView,
    payment_id: Seq<char>,
    merchant_id: Seq<char>,
    attempt_id: Seq<char>,
) -> Option<PaymentAttemptView> {
    row_at(
        store.attempts,
        first_index(store.attempts, attempt_key(payment_id, merchant_id, attempt_id)),
    )
}

/// The store after a row is added, or the refusal of a row whose key is
/// taken.
pub open spec fn spec_insert_payment_attempt(
    store: MemoryStoreView,
    row: PaymentAttemptView,
) -> Result<MemoryStoreView, StorageError> {
    let taken = first_index(
        store.attempts,
        attempt_key(row.payment_id, row.merchant_id, row.attempt_id),
    );
    if taken.is_some() {
        Err(StorageError::DuplicateValue)
    } else {
        Ok(MemoryStoreView { attempts: store.attempts.push(row), ..store })
    }
}

/// Holds of a row that is the address with an identifier, of a merchant.
pub open spec fn address_key(
    merchant_id: Seq<char>,
    address_id: Seq<char>,
) -> spec_fn(AddressView) -> bool {
    |row: AddressView|
        row.merchant_id == merchant_id
        && row.address_id == address_id
}

/// The address under a key, if the store has it: the first such row.
pub open spec fn spec_find_address(
    store: MemoryStoreView,
    merchant_id: Seq<char>,
    address_id: Seq<char>,
) -> Option<AddressView> {
    row_at(
        store.addresses,
        first_index(store.addresses, address_key(merchant_id, address_id)),
    )
}

/// The store after a row is added, or the refusal of a row whose key is
/// taken.
pub open spec fn spec_insert_address(
    store: MemoryStoreView,
    row: AddressView,
) -> Result<MemoryStoreView, StorageError> {
    let taken = first_index(
        store.addresses,
        address_key(row.merchant_id, row.address_id),
    );
    if taken.is_some() {
        Err(StorageError::DuplicateValue)
    } else {
        Ok(MemoryStoreView { addresses: store.addresses.push(row), ..store })
    }
}

/// Holds of a row that is the customer with an identifier, of a merchant.
pub open spec fn customer_key(
    customer_id: Seq<char>,
    merchant_id: Seq<char>,
) -> spec_fn(CustomerView) -> bool {
    |row: CustomerView|
        row.customer_id == customer_id
        && row.merchant_id == merchant_id
}

/// The customer under a key, if the store has it: the first such row.
pub open spec fn spec_find_customer(
    store: MemoryStoreView,
    customer_id: Seq<char>,
    merchant_id: Seq<char>,
) -> Option<CustomerView> {
    row_at(
        store.customers,
        first_index(store.customers, customer_key(customer_id, merchant_id)),
    )
}

/// The store after a row is added, or the refusal of a row whose key is
/// taken.
pub open spec fn spec_insert_customer(
    store: MemoryStoreView,
    row: CustomerView,
) -> Result<MemoryStoreView, StorageError> {
    let taken = first_index(
        store.customers,
        customer_key(row.customer_id, row.merchant_id),
    );
    if taken.is_some() {
        Err(StorageError::DuplicateValue)
    } else {
        Ok(MemoryStoreView { customers: store.customers.push(row), ..store })
    }
}

/// Holds of a row that is the connector credentials of a merchant under an identifier.
pub open spec fn credentials_key(
    merchant_id: Seq<char>,
    creds_identifier: Seq<char>,
) -> spec_fn(ConnectorCredentialsView) -> bool {
    |row: ConnectorCredentialsView|
        row.merchant_id == merchant_id
        && row.creds_identifier == creds_identifier
}

/// The credentials under a key, if the store has it: the first such row.
pub open spec fn spec_find_credentials(
    store: MemoryStoreView,
    merchant_id: Seq<char>,
    creds_identifier: Seq<char>,
) -> Option<ConnectorCredentialsView> {
    row_at(
        store.credentials,
        first_index(store.credentials, credentials_key(merchant_id, creds_identifier)),
    )
}

/// The store after a row is added, or the refusal of a row whose key is
/// taken.
pub open spec fn spec_insert_merchant_connector_creds(
    store: MemoryStoreView,
    row: ConnectorCredentialsView,
) -> Result<MemoryStoreView, StorageError> {
    let taken = first_index(
        store.credentials,
        credentials_key(row.merchant_id, row.creds_identifier),
    );
    if taken.is_some() {
        Err(StorageError::DuplicateValue)
    } else {
        Ok(MemoryStoreView { credentials: store.credentials.push(row), ..store })
    }
}

impl MemoryStore {
    /// A store without rows.
    pub fn new() -> (res: Self)
        ensures
            res@ == MemoryStoreView::empty(),
    {
        let res = MemoryStore {
            intents: Vec::new(),
            attempts: Vec::new(),
            addresses: Vec::new(),
            customers: Vec::new(),
            credentials: Vec::new(),
        };
        proof {
            assert(res.intents.deep_view() =~= Seq::empty());
            assert(res.attempts.deep_view() =~= Seq::empty());
            assert(res.addresses.deep_view() =~= Seq::empty());
            assert(res.customers.deep_view() =~= Seq::empty());
            assert(res.credentials.deep_view() =~= Seq::empty());
        }
        res
    }

    fn intent_position(
        &self,
        payment_id: &String,
        merchant_id: &String,
    ) -> (res: Option<usize>)
        ensures
            place_view(res) == first_index(
                self@.intents,
                intent_key(payment_id@, merchant_id@),
            ),
            res.is_some() ==> res.unwrap() < self.intents@.len(),
    {
        let ghost wanted = intent_key(payment_id@, merchant_id@);
        let mut i: usize = 0;
        while i < self.intents.len()
            invariant
                i <= self.intents@.len(),
                self@.intents == self.intents.deep_view(),
                wanted == intent_key(payment_id@, merchant_id@),
                forall|j: int| 0 <= j < i ==> !wanted(#[trigger] self@.intents[j]),
            decreases self.intents.len() - i,
        {
            if self.intents[i].payment_id == *payment_id
                && self.intents[i].merchant_id == *merchant_id {
                proof {
                    lemma_first_index(self@.intents, wanted, i as int);
                }
                return Some(i);
            }
            i = i + 1;
        }
        proof {
            lemma_first_index_none(self@.intents, wanted);
        }
        None
    }

    /// Reads the intent under a key.
    pub fn find_payment_intent_by_payment_id_merchant_id(
        &self,
        payment_id: &String,
        merchant_id: &String,
    ) -> (res: Option<PaymentIntent>)
        ensures
            opt_view(res) == spec_find_intent(self@, payment_id@, merchant_id@),
    {
        match self.intent_position(payment_id, merchant_id) {
            Some(i) => Some(self.intents[i].clone()),
            None => None,
        }
    }

    /// Adds a row, unless its key is taken.
    pub fn insert_payment_intent(&mut self, row: PaymentIntent) -> (res: Result<(), StorageError>)
        ensures
            written(res, final(self)@) == spec_insert_payment_intent(old(self)@, row@),
            res is Err ==> final(self)@ == old(self)@,
    {
        match self.intent_position(&row.payment_id, &row.merchant_id) {
            Some(_) => Err(StorageError::DuplicateValue),
            None => {
                self.intents.push(row);
                proof {
                    let rows = old(self).intents.deep_view();
                    assert(self.intents.deep_view() =~= rows.push(row@));
                }
                Ok(())
            },
        }
    }

    fn attempt_position(
        &self,
        payment_id: &String,
        merchant_id: &String,
        attempt_id: &String,
    ) -> (res: Option<usize>)
        ensures
            place_view(res) == first_index(
                self@.attempts,
                attempt_key(payment_id@, merchant_id@, attempt_id@),
            ),
            res.is_some() ==> res.unwrap() < self.attempts@.len(),
    {
        let ghost wanted = attempt_key(payment_id@, merchant_id@, attempt_id@);
        let mut i: usize = 0;
        while i < self.attempts.len()
            invariant
                i <= self.attempts@.len(),
                self@.attempts == self.attempts.deep_view(),
                wanted == attempt_key(payment_id@, merchant_id@, attempt_id@),
                forall|j: int| 0 <= j < i ==> !wanted(#[trigger] self@.attempts[j]),
            decreases self.attempts.len() - i,
        {
            if self.attempts[i].payment_id == *payment_id
                && self.attempts[i].merchant_id == *merchant_id
                && self.attempts[i].attempt_id == *attempt_id {
                proof {
                    lemma_first_index(self@.attempts, wanted, i as int);
                }
                return Some(i);
            }
            i = i + 1;
        }
        proof {
            lemma_first_index_none(self@.attempts, wanted);
        }
        None
    }

    /// Reads the attempt under a key.
    pub fn find_payment_attempt_by_payment_id_merchant_id_attempt_id(
        &self,
        payment_id: &String,
        merchant_id: &String,
        attempt_id: &String,
    ) -> (res: Option<PaymentAttempt>)
        ensures
            opt_view(res) == spec_find_attempt(self@, payment_id@, merchant_id@, attempt_id@),
    {
        match self.attempt_position(payment_id, merchant_id, attempt_id) {
            Some(i) => Some(self.attempts[i].clone()),
            None => None,
        }
    }

    /// Adds a row, unless its key is taken.
    pub fn insert_payment_attempt(&mut self, row: PaymentAttempt) -> (res: Result<(), StorageError>)
        ensures
            written(res, final(self)@) == spec_insert_payment_attempt(old(self)@, row@),
            res is Err ==> final(self)@ == old(self)@,
    {
        match self.attempt_position(&row.payment_id, &row.merchant_id, &row.attempt_id) {
            Some(_) => Err(StorageError::DuplicateValue),
            None => {
                self.attempts.push(row);
                proof {
                    let rows = old(self).attempts.deep_view();
                    assert(self.attempts.deep_view() =~= rows.push(row@));
                }
                Ok(())
            },
        }
    }

    fn address_position(
        &self,
        merchant_id: &String,
        address_id: &String,
    ) -> (res: Option<usize>)
        ensures
            place_view(res) == first_index(
                self@.addresses,
                address_key(merchant_id@, address_id@),
            ),
            res.is_some() ==> res.unwrap() < self.addresses@.len(),
    {
        let ghost wanted = address_key(merchant_id@, address_id@);
        let mut i: usize = 0;
        while i < self.addresses.len()
            invariant
                i <= self.addresses@.len(),
                self@.addresses == self.addresses.deep_view(),
                wanted == address_key(merchant_id@, address_id@),
                forall|j: int| 0 <= j < i ==> !wanted(#[trigger] self@.addresses[j]),
            decreases self.addresses.len() - i,
        {
            if self.addresses[i].merchant_id == *merchant_id
                && self.addresses[i].address_id == *address_id {
                proof {
                    lemma_first_index(self@.addresses, wanted, i as int);
                }
                return Some(i);
            }
            i = i + 1;
        }
        proof {
            lemma_first_index_none(self@.addresses, wanted);
        }
        None
    }

    /// Reads the address under a key.
    pub fn find_address_by_merchant_id_address_id(
        &self,
        merchant_id: &String,
        address_id: &String,
    ) -> (res: Option<Address>)
        ensures
            opt_view(res) == spec_find_address(self@, merchant_id@, address_id@),
    {
        match self.address_position(merchant_id, address_id) {
            Some(i) => Some(self.addresses[i].clone()),
            None => None,
        }
    }

    /// Adds a row, unless its key is taken.
    pub fn insert_address(&mut self, row: Address) -> (res: Result<(), StorageError>)
        ensures
            written(res, final(self)@) == spec_insert_address(old(self)@, row@),
            res is Err ==> final(self)@ == old(self)@,
    {
        match self.address_position(&row.merchant_id, &row.address_id) {
            Some(_) => Err(StorageError::DuplicateValue),
            None => {
                self.addresses.push(row);
                proof {
                    let rows = old(self).addresses.deep_view();
                    assert(self.addresses.deep_view() =~= rows.push(row@));
                }
                Ok(())
            },
        }
    }

    fn customer_position(
        &self,
        customer_id: &String,
        merchant_id: &String,
    ) -> (res: Option<usize>)
        ensures
            place_view(res) == first_index(
                self@.customers,
                customer_key(customer_id@, merchant_id@),
            ),
            res.is_some() ==> res.unwrap() < self.customers@.len(),
    {
        let ghost wanted = customer_key(customer_id@, merchant_id@);
        let mut i: usize = 0;
        while i < self.customers.len()
            invariant
                i <= self.customers@.len(),
                self@.customers == self.customers.deep_view(),
                wanted == customer_key(customer_id@, merchant_id@),
                forall|j: int| 0 <= j < i ==> !wanted(#[trigger] self@.customers[j]),
            decreases self.customers.len() - i,
        {
            if self.customers[i].customer_id == *customer_id
                && self.customers[i].merchant_id == *merchant_id {
                proof {
                    lemma_first_index(self@.customers, wanted, i as int);
                }
                return Some(i);
            }
            i = i + 1;
        }
        proof {
            lemma_first_index_none(self@.customers, wanted);
        }
        None
    }

    /// Reads the customer under a key.
    pub fn find_customer_by_customer_id_merchant_id(
        &self,
        customer_id: &String,
        merchant_id: &String,
    ) -> (res: Option<Customer>)
        ensures
            opt_view(res) == spec_find_customer(self@, customer_id@, merchant_id@),
    {
        match self.customer_position(customer_id, merchant_id) {
            Some(i) => Some(self.customers[i].clone()),
            None => None,
        }
    }

    /// Adds a row, unless its key is taken.
    pub fn insert_customer(&mut self, row: Customer) -> (res: Result<(), StorageError>)
        ensures
            written(res, final(self)@) == spec_insert_customer(old(self)@, row@),
            res is Err ==> final(self)@ == old(self)@,
    {
        match self.customer_position(&row.customer_id, &row.merchant_id) {
            Some(_) => Err(StorageError::DuplicateValue),
            None => {
                self.customers.push(row);
                proof {
                    let rows = old(self).customers.deep_view();
                    assert(self.customers.deep_view() =~= rows.push(row@));
                }
                Ok(())
            },
        }
    }

    fn credentials_position(
        &self,
        merchant_id: &String,
        creds_identifier: &String,
    ) -> (res: Option<usize>)
        ensures
            place_view(res) == first_index(
                self@.credentials,
                credentials_key(merchant_id@, creds_identifier@),
            ),
            res.is_some() ==> res.unwrap() < self.credentials@.len(),
    {
        let ghost wanted = credentials_key(merchant_id@, creds_identifier@);
        let mut i: usize = 0;
        while i < self.credentials.len()
            invariant
                i <= self.credentials@.len(),
                self@.credentials == self.credentials.deep_view(),
                wanted == credentials_key(merchant_id@, creds_identifier@),
                forall|j: int| 0 <= j < i ==> !wanted(#[trigger] self@.credentials[j]),
            decreases self.credentials.len() - i,
        {
            if self.credentials[i].merchant_id == *merchant_id
                && self.credentials[i].creds_identifier == *creds_identifier {
                proof {
                    lemma_first_index(self@.credentials, wanted, i as int);
                }
                return Some(i);
            }
            i = i + 1;
        }
        proof {
            lemma_first_index_none(self@.credentials, wanted);
        }
        None
    }

    /// Reads the credentials under a key.
    pub fn find_merchant_connector_creds(
        &self,
        merchant_id: &String,
        creds_identifier: &String,
    ) -> (res: Option<ConnectorCredentials>)
        ensures
            opt_view(res) == spec_find_credentials(self@, merchant_id@, creds_identifier@),
    {
        match self.credentials_position(merchant_id, creds_identifier) {
            Some(i) => Some(self.credentials[i].clone()),
            None => None,
        }
    }

    /// Adds a row, unless its key is taken.
    pub fn insert_merchant_connector_creds(
        &mut self,
        row: ConnectorCredentials,
    ) -> (res: Result<(), StorageError>)
        ensures
            written(res, final(self)@) == spec_insert_merchant_connector_creds(old(self)@, row@),
            res is Err ==> final(self)@ == old(self)@,
    {
        match self.credentials_position(&row.merchant_id, &row.creds_identifier) {
            Some(_) => Err(StorageError::DuplicateValue),
            None => {
                self.credentials.push(row);
                proof {
                    let rows = old(self).credentials.deep_view();
                    assert(self.credentials.deep_view() =~= rows.push(row@));
                }
                Ok(())
            },
        }
    }

    /// Changes the stored attempt that `this` was read from, as long as the
    /// row has not been changed since.
    pub fn update_payment_attempt_with_attempt_id(
        &mut self,
        this: &PaymentAttempt,
        update: PaymentAttemptUpdate,
        now: i64,
    ) -> (res: Option<PaymentAttempt>)
        ensures
            match res {
                Some(row) => spec_update_attempt(old(self)@, this@, update@, now) == Some(
                    (final(self)@, row@),
                ),
                None => spec_update_attempt(old(self)@, this@, update@, now).is_none()
                    && final(self)@ == old(self)@,
            },
    {
        match self.attempt_position(&this.payment_id, &this.merchant_id, &this.attempt_id) {
            None => None,
            Some(i) => {
                if self.attempts[i].modified_at != this.modified_at {
                    return None;
                }
                let source = self.attempts[i].clone();
                let row = update.apply_changeset(source, now);
                let out = row.clone();
                self.attempts.set(i, row);
                proof {
                    assert(self.attempts.deep_view() =~= old(self).attempts.deep_view().update(
                        i as int,
                        out@,
                    ));
                }
                Some(out)
            },
        }
    }

    /// Changes the stored intent that `this` was read from, as long as the
    /// row has not been changed since.
    pub fn update_payment_intent(
        &mut self,
        this: &PaymentIntent,
        update: PaymentIntentUpdate,
        now: i64,
    ) -> (res: Option<PaymentIntent>)
        ensures
            match res {
                Some(row) => spec_update_intent(old(self)@, this@, update@, now) == Some(
                    (final(self)@, row@),
                ),
                None => spec_update_intent(old(self)@, this@, update@, now).is_none()
                    && final(self)@ == old(self)@,
            },
    {
        match self.intent_position(&this.payment_id, &this.merchant_id) {
            None => None,
            Some(i) => {
                if self.intents[i].modified_at != this.modified_at {
                    return None;
                }
                let source = self.intents[i].clone();
                let row = update.apply_changeset(source, now);
                let out = row.clone();
                self.intents.set(i, row);
                proof {
                    assert(self.intents.deep_view() =~= old(self).intents.deep_view().update(
                        i as int,
                        out@,
                    ));
                }
                Some(out)
            },
        }
    }

    /// Changes a stored customer.
    pub fn update_customer_by_customer_id_merchant_id(
        &mut self,
        customer_id: &String,
        merchant_id: &String,
        update: CustomerUpdate,
    ) -> (res: Option<Customer>)
        ensures
            match res {
                Some(row) => spec_update_customer(
                    old(self)@,
                    customer_id@,
                    merchant_id@,
                    update@,
                ) == Some((final(self)@, row@)),
                None => spec_update_customer(
                    old(self)@,
                    customer_id@,
                    merchant_id@,
                    update@,
                ).is_none() && final(self)@ == old(self)@,
            },
    {
        match self.customer_position(customer_id, merchant_id) {
            None => None,
            Some(i) => {
                let source = self.customers[i].clone();
                let row = Customer {
                    connector_customer: match update.connector_customer {
                        Some(value) => Some(value),
                        None => source.connector_customer,
                    },
                    ..source
                };
                let out = row.clone();
                self.customers.set(i, row);
                proof {
                    assert(self.customers.deep_view() =~= old(self).customers.deep_view().update(
                        i as int,
                        out@,
                    ));
                }
                Some(out)
            },
        }
    }

    /// Keeps connector credentials of a merchant under their identifier.
    /// Credentials that are already kept under it stay as they are.
    pub fn insert_merchant_connector_creds_to_config(
        &mut self,
        merchant_id: &String,
        details: MerchantConnectorDetailsWrap,
    )
        ensures
            final(self)@ == spec_keep_credentials(old(self)@, merchant_id@, details@),
    {
        let row = ConnectorCredentials {
            merchant_id: merchant_id.clone(),
            creds_identifier: details.creds_identifier,
            encoded_data: details.encoded_data,
        };
        let _ = self.insert_merchant_connector_creds(row);
    }

    /// Overwrites what a stored address says with what a request gives.
    pub fn update_address(
        &mut self,
        merchant_id: &String,
        address_id: &String,
        details: AddressDetails,
        now: i64,
    ) -> (res: Option<Address>)
        ensures
            match res {
                Some(row) => spec_update_address(
                    old(self)@,
                    merchant_id@,
                    address_id@,
                    details@,
                    now,
                ) == Some((final(self)@, row@)),
                None => spec_update_address(
                    old(self)@,
                    merchant_id@,
                    address_id@,
                    details@,
                    now,
                ).is_none() && final(self)@ == old(self)@,
            },
    {
        match self.address_position(merchant_id, address_id) {
            None => None,
            Some(i) => {
                let source = self.addresses[i].clone();
                let row = Address { details, modified_at: now, ..source };
                let out = row.clone();
                self.addresses.set(i, row);
                proof {
                    assert(self.addresses.deep_view() =~= old(self).addresses.deep_view().update(
                        i as int,
                        out@,
                    ));
                }
                Some(out)
            },
        }
    }
}

/// The store after connector credentials are kept.
pub open spec fn spec_keep_credentials(
    store: MemoryStoreView,
    merchant_id: Seq<char>,
    details: MerchantConnectorDetailsWrapView,
) -> MemoryStoreView {
    match spec_insert_merchant_connector_creds(
        store,
        ConnectorCredentialsView {
            merchant_id,
            creds_identifier: details.creds_identifier,
            encoded_data: details.encoded_data,
        },
    ) {
        Ok(after) => after,
        Err(_) => store,
    }
}

/// The store after a conditional change to an attempt, with the changed row;
/// nothing where the row is gone or was changed since `this` was read.
pub open spec fn spec_update_attempt(
    store: MemoryStoreView,
    this: PaymentAttemptView,
    update: PaymentAttemptUpdateView,
    now: i64,
) -> Option<(MemoryStoreView, PaymentAttemptView)> {
    match first_index(
        store.attempts,
        attempt_key(this.payment_id, this.merchant_id, this.attempt_id),
    ) {
        Some(i) => if store.attempts[i].modified_at == this.modified_at {
            let row = spec_apply_attempt_update(update, store.attempts[i], now);
            Some((MemoryStoreView { attempts: store.attempts.update(i, row), ..store }, row))
        } else {
            None
        },
        None => None,
    }
}

/// The store after a conditional change to an intent, with the changed row;
/// nothing where the row is gone or was changed since `this` was read.
pub open spec fn spec_update_intent(
    store: MemoryStoreView,
    this: PaymentIntentView,
    update: PaymentIntentUpdateView,
    now: i64,
) -> Option<(MemoryStoreView, PaymentIntentView)> {
    match first_index(store.intents, intent_key(this.payment_id, this.merchant_id)) {
        Some(i) => if store.intents[i].modified_at == this.modified_at {
            let row = spec_apply_intent_update(update, store.intents[i], now);
            Some((MemoryStoreView { intents: store.intents.update(i, row), ..store }, row))
        } else {
            None
        },
        None => None,
    }
}

/// The store after a change to a customer, with the changed row.
pub open spec fn spec_update_customer(
    store: MemoryStoreView,
    customer_id: Seq<char>,
    merchant_id: Seq<char>,
    update: CustomerUpdateView,
) -> Option<(MemoryStoreView, CustomerView)> {
    match first_index(store.customers, customer_key(customer_id, merchant_id)) {
        Some(i) => {
            let row = CustomerView {
                connector_customer: or_else(
                    update.connector_customer,
                    store.customers[i].connector_customer,
                ),
                ..store.customers[i]
            };
            Some((MemoryStoreView { customers: store.customers.update(i, row), ..store }, row))
        },
        None => None,
    }
}

/// The store after an address is overwritten, with the changed row.
pub open spec fn spec_update_address(
    store: MemoryStoreView,
    merchant_id: Seq<char>,
    address_id: Seq<char>,
    details: AddressDetailsView,
    now: i64,
) -> Option<(MemoryStoreView, AddressView)> {
    match first_index(store.addresses, address_key(merchant_id, address_id)) {
        Some(i) => {
            let row = AddressView { details, modified_at: now, ..store.addresses[i] };
            Some((MemoryStoreView { addresses: store.addresses.update(i, row), ..store }, row))
        },
        None => None,
    }
}

/// One entry of the session cache.
pub struct CachedSurcharge {
    pub key: SurchargeKey,
    pub details: SurchargeDetails,
}

impl DeepView for CachedSurcharge {
    type V = (SurchargeKeyView, SurchargeDetails);

    open spec fn deep_view(&self) -> (SurchargeKeyView, SurchargeDetails) {
        (self.key@, self.details)
    }
}

/// The surcharges that session calls computed, by payment method type and
/// attempt.
pub struct SessionCache {
    entries: Vec<CachedSurcharge>,
}

impl View for SessionCache {
    type V = Seq<(SurchargeKeyView, SurchargeDetails)>;

    closed spec fn view(&self) -> Seq<(SurchargeKeyView, SurchargeDetails)> {
        self.entries.deep_view()
    }
}

/// Holds of the entry under a key.
pub open spec fn surcharge_entry_key(key: SurchargeKeyView) -> spec_fn(
    (SurchargeKeyView, SurchargeDetails),
) -> bool {
    |entry: (SurchargeKeyView, SurchargeDetails)| entry.0 == key
}

/// What the cache answers for a key.
pub open spec fn spec_cached_surcharge(
    cache: Seq<(SurchargeKeyView, SurchargeDetails)>,
    key: SurchargeKeyView,
) -> SessionSurcharge {
    match first_index(cache, surcharge_entry_key(key)) {
        Some(i) => SessionSurcharge::Found(cache[i].1),
        None => SessionSurcharge::NotFound,
    }
}

/// The cache after a surcharge is put under a key: in the place of the entry
/// that the key had, else behind the other entries.
pub open spec fn spec_put_surcharge(
    cache: Seq<(SurchargeKeyView, SurchargeDetails)>,
    key: SurchargeKeyView,
    details: SurchargeDetails,
) -> Seq<(SurchargeKeyView, SurchargeDetails)> {
    match first_index(cache, surcharge_entry_key(key)) {
        Some(i) => cache.update(i, (key, details)),
        None => cache.push((key, details)),
    }
}

impl SessionCache {
    /// A cache without entries.
    pub fn new() -> (res: Self)
        ensures
            res@ == Seq::<(SurchargeKeyView, SurchargeDetails)>::empty(),
    {
        let res = SessionCache { entries: Vec::new() };
        proof {
            assert(res.entries.deep_view() =~= Seq::empty());
        }
        res
    }

    fn position(&self, key: &SurchargeKey) -> (res: Option<usize>)
        ensures
            place_view(res) == first_index(self@, surcharge_entry_key(key@)),
            res.is_some() ==> res.unwrap() < self.entries@.len(),
    {
        let ghost wanted = surcharge_entry_key(key@);
        let mut i: usize = 0;
        while i < self.entries.len()
            invariant
                i <= self.entries@.len(),
                self@ == self.entries.deep_view(),
                wanted == surcharge_entry_key(key@),
                forall|j: int| 0 <= j < i ==> !wanted(#[trigger] self@[j]),
            decreases self.entries.len() - i,
        {
            if self.entries[i].key.payment_method_type == key.payment_method_type
                && self.entries[i].key.attempt_id == key.attempt_id {
                proof {
                    lemma_first_index(self@, wanted, i as int);
                }
                return Some(i);
            }
            i = i + 1;
        }
        proof {
            lemma_first_index_none(self@, wanted);
        }
        None
    }

    /// Answers for a key: the surcharge under it, or that there is none.
    pub fn get_individual_surcharge_detail(&self, key: &SurchargeKey) -> (res: SessionSurcharge)
        ensures
            res == spec_cached_surcharge(self@, key@),
    {
        match self.position(key) {
            Some(i) => SessionSurcharge::Found(self.entries[i].details),
            None => SessionSurcharge::NotFound,
        }
    }

    /// Puts a surcharge under a key.
    pub fn put(&mut self, key: SurchargeKey, details: SurchargeDetails)
        ensures
            final(self)@ == spec_put_surcharge(old(self)@, key@, details),
            spec_cached_surcharge(final(self)@, key@) == SessionSurcharge::Found(details),
    {
        let ghost wanted = surcharge_entry_key(key@);
        match self.position(&key) {
            Some(i) => {
                self.entries.set(i, CachedSurcharge { key, details });
                proof {
                    assert(self.entries.deep_view() =~= old(self).entries.deep_view().update(
                        i as int,
                        (key@, details),
                    ));
                    lemma_first_index_is_first(old(self)@, wanted);
                    lemma_first_index(self@, wanted, i as int);
                }
            },
            None => {
                self.entries.push(CachedSurcharge { key, details });
                proof {
                    assert(self.entries.deep_view() =~= old(self).entries.deep_view().push(
                        (key@, details),
                    ));
                    lemma_first_index_is_first(old(self)@, wanted);
                    lemma_first_index(self@, wanted, old(self)@.len() as int);
                }
            },
        }
    }
}

} // verus!
