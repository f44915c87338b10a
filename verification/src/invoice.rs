//! Invoices, and the customer email roster they reveal.
//!
//! The customer listing endpoint reports names and cards but no emails,
//! so the email roster is assembled from the invoice listing instead:
//! each invoice names its primary recipient. The same customer appears on
//! many invoices, so the roster is deduplicated by email address, keeping
//! the name fields of the first occurrence.

use vstd::prelude::*;
use crate::common::{CustomerEmailInfo, Price};

verus! {

/// The body of an invoice listing.
#[derive(Clone, Debug)]
pub struct InvoiceListResponse {
    pub invoices: Vec<Invoice>,
    pub cursor: Option<String>,
}

/// One invoice.
#[derive(Clone, Debug)]
pub struct Invoice {
    pub id: String,
    pub version: u64,
    pub location_id: String,
    pub order_id: String,
    pub payment_requests: Vec<PaymentRequest>,
    pub invoice_number: String,
    pub title: String,
    pub description: Option<String>,
    pub scheduled_at: Option<String>,
    pub status: String,
    pub timezone: String,
    pub created_at: String,
    pub updated_at: String,
    pub primary_recipient: Recipient,
    pub accepted_payment_methods: PaymentMethod,
    pub delivery_method: String,
    pub sale_or_service_date: Option<String>,
    pub public_url: Option<String>,
    pub store_payment_method_enabled: bool,
    pub subscription_id: Option<String>,
    pub next_payment_amount_money: Option<Price>,
}

/// Which payment methods an invoice accepts.
#[derive(Clone, Debug)]
pub struct PaymentMethod {
    pub bank_account: bool,
    pub buy_now_pay_later: bool,
    pub card: bool,
    pub cash_app_pay: bool,
    pub square_gift_card: bool,
}

/// One payment request attached to an invoice.
#[derive(Clone, Debug)]
pub struct PaymentRequest {
    pub automatic_payment_source: String,
    pub card_id: String,
    pub computed_amount_money: Price,
    pub due_date: String,
    pub request_type: String,
    pub tipping_enabled: bool,
    pub total_completed_amount_money: Price,
    pub uid: String,
}

/// The primary recipient of an invoice.
#[derive(Clone, Debug)]
pub struct Recipient {
    pub customer_id: String,
    pub email_address: String,
    pub family_name: String,
    pub given_name: String,
    pub phone_number: String,
}

/// The email identity of one invoice's recipient.
pub open spec fn spec_email_info_of(inv: Invoice) -> CustomerEmailInfo {
    CustomerEmailInfo {
        email_address: inv.primary_recipient.email_address,
        family_name: inv.primary_recipient.family_name,
        given_name: inv.primary_recipient.given_name,
    }
}

/// The input roster with every entry after the first occurrence of its
/// email address removed; first occurrences keep their position and their
/// name fields.
pub open spec fn spec_dedup_by_email(s: Seq<CustomerEmailInfo>) -> Seq<CustomerEmailInfo>
    decreases s.len(),
{
    if s.len() == 0 {
        Seq::empty()
    } else {
        let prefix = spec_dedup_by_email(s.drop_last());
        if exists|j: int|
            0 <= j < s.len() - 1 && (#[trigger] s[j].email_address@)
                == s.last().email_address@ {
            prefix
        } else {
            prefix.push(s.last())
        }
    }
}

impl InvoiceListResponse {
    /// The recipient identities of the listed invoices, in listing order,
    /// one per invoice.
    pub fn email_infos(&self) -> (r: Vec<CustomerEmailInfo>)
        ensures
            r@.len() == self.invoices@.len(),
            forall|i: int| 0 <= i < r@.len() ==> r@[i] == spec_email_info_of(
                #[trigger] self.invoices@[i],
            ),
    {
        let mut infos: Vec<CustomerEmailInfo> = Vec::new();
        let mut i: usize = 0;
        while i < self.invoices.len()
            invariant
                0 <= i <= self.invoices@.len(),
                infos@.len() == i,
                forall|j: int| 0 <= j < i ==> infos@[j] == spec_email_info_of(
                    #[trigger] self.invoices@[j],
                ),
            decreases self.invoices@.len() - i,
        {
            let recipient = &self.invoices[i].primary_recipient;
            infos.push(
                CustomerEmailInfo {
                    email_address: recipient.email_address.clone(),
                    family_name: recipient.family_name.clone(),
                    given_name: recipient.given_name.clone(),
                },
            );
            i = i + 1;
        }
        infos
    }
}

/// The payload of an asynchronous invoice event delivered to the
/// registered webhook.
#[derive(Clone, Debug)]
pub struct InvoiceWebhookResponse {
    pub merchant_id: String,
    pub location_id: String,
    pub event_id: String,
    pub created_at: String,
    pub data: PaymentMadeData,
}

/// The typed body of an invoice event.
#[derive(Clone, Debug)]
pub struct PaymentMadeData {
    pub type_: String,
    pub id: String,
    pub object: PaymentMadeDataObject,
}

/// The invoice an event is about.
#[derive(Clone, Debug)]
pub struct PaymentMadeDataObject {
    pub invoice: Invoice,
}

fn roster_contains_email(roster: &Vec<CustomerEmailInfo>, email: &String) -> (r: bool)
    ensures
        r == spec_roster_has_email(roster@, email@),
{
    let mut i: usize = 0;
    while i < roster.len()
        invariant
            0 <= i <= roster@.len(),
            forall|j: int| 0 <= j < i ==> (#[trigger] roster@[j].email_address@) != email@,
        decreases roster@.len() - i,
    {
        if roster[i].email_address == *email {
            return true;
        }
        i = i + 1;
    }
    false
}

/// Deduplicates an email roster by email address, keeping the first
/// occurrence's name fields whenever the same address appears repeatedly.
pub fn dedup_by_email(list: Vec<CustomerEmailInfo>) -> (r: Vec<CustomerEmailInfo>)
    ensures
        r@ == spec_dedup_by_email(list@),
{
    let mut roster: Vec<CustomerEmailInfo> = Vec::new();
    let mut i: usize = 0;
    while i < list.len()
        invariant
            0 <= i <= list@.len(),
            roster@ == spec_dedup_by_email(list@.take(i as int)),
        decreases list@.len() - i,
    {
        let entry = &list[i];
        let seen = roster_contains_email(&roster, &entry.email_address);
        let ghost e = list@[i as int].email_address@;
        let ghost s1 = list@.take(i + 1);
        proof {
            assert(s1.drop_last() =~= list@.take(i as int));
            assert(s1.last() == list@[i as int]);
            assert(forall|k: int| 0 <= k <= i ==> (#[trigger] s1[k]) == list@[k]);
            lemma_dedup_preserves_emails(list@.take(i as int), e);
            let dup = exists|j: int|
                0 <= j < s1.len() - 1 && (#[trigger] s1[j].email_address@)
                    == s1.last().email_address@;
            if seen {
                let j = choose|j: int|
                    0 <= j < list@.take(i as int).len()
                        && (#[trigger] list@.take(i as int)[j].email_address@) == e;
                assert(s1[j].email_address@ == s1.last().email_address@);
                assert(dup);
            } else {
                if dup {
                    let j = choose|j: int|
                        0 <= j < s1.len() - 1 && (#[trigger] s1[j].email_address@)
                            == s1.last().email_address@;
                    assert(list@.take(i as int)[j].email_address@ == e);
                    assert(false);
                }
            }
        }
        if !seen {
            roster.push(
                CustomerEmailInfo {
                    email_address: entry.email_address.clone(),
                    family_name: entry.family_name.clone(),
                    given_name: entry.given_name.clone(),
                },
            );
        }
        proof {
            assert(roster@ =~= spec_dedup_by_email(s1));
        }
        i = i + 1;
    }
    proof {
        assert(list@.take(list@.len() as int) =~= list@);
    }
    roster
}

/// Deduplication neither invents nor loses email addresses: an address
/// occurs in the deduplicated roster exactly when it occurs in the input.
pub proof fn lemma_dedup_preserves_emails(s: Seq<CustomerEmailInfo>, e: Seq<char>)
    ensures
        spec_roster_has_email(spec_dedup_by_email(s), e) == spec_roster_has_email(s, e),
    decreases s.len(),
{
    if s.len() > 0 {
        lemma_dedup_preserves_emails(s.drop_last(), e);
        let d = spec_dedup_by_email(s);
        let dp = spec_dedup_by_email(s.drop_last());
        let dup = exists|j: int|
            0 <= j < s.len() - 1 && (#[trigger] s[j].email_address@) == s.last().email_address@;
        assert(forall|k: int| 0 <= k < s.len() - 1 ==> (#[trigger] s.drop_last()[k]) == s[k]);
        if spec_roster_has_email(s, e) {
            let j = choose|j: int| 0 <= j < s.len() && (#[trigger] s[j].email_address@) == e;
            if j < s.len() - 1 {
                assert(s.drop_last()[j].email_address@ == e);
                if !dup {
                    lemma_has_email_push(dp, s.last(), e);
                }
            } else {
                if dup {
                    let j2 = choose|j2: int|
                        0 <= j2 < s.len() - 1 && (#[trigger] s[j2].email_address@)
                            == s.last().email_address@;
                    assert(s.drop_last()[j2].email_address@ == e);
                } else {
                    lemma_has_email_push(dp, s.last(), e);
                }
            }
        }
        if spec_roster_has_email(d, e) {
            if !dup {
                lemma_has_email_push(dp, s.last(), e);
            }
            if !dup && s.last().email_address@ == e {
                assert(s[s.len() - 1].email_address@ == e);
            } else {
                assert(spec_roster_has_email(dp, e));
                let k = choose|k: int|
                    0 <= k < s.drop_last().len()
                        && (#[trigger] s.drop_last()[k].email_address@) == e;
                assert(s[k].email_address@ == e) by {
                    assert(s.drop_last()[k] == s[k]);
                }
            }
        }
    }
}

/// Whether some entry of a roster carries the given email address.
pub open spec fn spec_roster_has_email(s: Seq<CustomerEmailInfo>, e: Seq<char>) -> bool {
    exists|j: int| 0 <= j < s.len() && (#[trigger] s[j].email_address@) == e
}

proof fn lemma_has_email_push(s: Seq<CustomerEmailInfo>, x: CustomerEmailInfo, e: Seq<char>)
    ensures
        spec_roster_has_email(s.push(x), e) <==> (spec_roster_has_email(s, e)
            || x.email_address@ == e),
{
    if spec_roster_has_email(s, e) {
        let j = choose|j: int| 0 <= j < s.len() && (#[trigger] s[j].email_address@) == e;
        assert(s.push(x)[j].email_address@ == e);
    }
    if x.email_address@ == e {
        assert(s.push(x)[s.len() as int].email_address@ == e);
    }
    if spec_roster_has_email(s.push(x), e) {
        let j = choose|j: int|
            0 <= j < s.push(x).len() && (#[trigger] s.push(x)[j].email_address@) == e;
        if j < s.len() {
            assert(s[j].email_address@ == e);
        }
    }
}

/// Every entry the deduplicated roster keeps comes verbatim from the
/// input roster.
pub proof fn lemma_dedup_is_subset(s: Seq<CustomerEmailInfo>)
    ensures
        forall|a: int|
            0 <= a < spec_dedup_by_email(s).len() ==> s.contains(
                #[trigger] spec_dedup_by_email(s)[a],
            ),
    decreases s.len(),
{
    if s.len() > 0 {
        lemma_dedup_is_subset(s.drop_last());
        let d = spec_dedup_by_email(s);
        let dp = spec_dedup_by_email(s.drop_last());
        assert forall|a: int| 0 <= a < d.len() implies s.contains(#[trigger] d[a]) by {
            if a < dp.len() {
                assert(d[a] == dp[a]);
                assert(s.drop_last().contains(dp[a]));
                let k = choose|k: int|
                    0 <= k < s.drop_last().len() && s.drop_last()[k] == dp[a];
                assert(s[k] == d[a]);
            } else {
                assert(d[a] == s.last());
                assert(s[s.len() - 1] == s.last());
            }
        }
    }
}

/// Deduplication keeps at most one entry per email address.
pub proof fn lemma_dedup_emails_distinct(s: Seq<CustomerEmailInfo>)
    ensures
        forall|a: int, b: int|
            0 <= a < b < spec_dedup_by_email(s).len()
                ==> (#[trigger] spec_dedup_by_email(s)[a].email_address@)
                != (#[trigger] spec_dedup_by_email(s)[b].email_address@),
    decreases s.len(),
{
    if s.len() > 0 {
        lemma_dedup_emails_distinct(s.drop_last());
        let d = spec_dedup_by_email(s);
        let dp = spec_dedup_by_email(s.drop_last());
        let dup = exists|j: int|
            0 <= j < s.len() - 1 && (#[trigger] s[j].email_address@) == s.last().email_address@;
        if !dup {
            if spec_roster_has_email(dp, s.last().email_address@) {
                let a = choose|a: int|
                    0 <= a < dp.len() && (#[trigger] dp[a].email_address@)
                        == s.last().email_address@;
                lemma_dedup_is_subset(s.drop_last());
                assert(s.drop_last().contains(dp[a]));
                let k = choose|k: int|
                    0 <= k < s.drop_last().len() && s.drop_last()[k] == dp[a];
                assert(s[k].email_address@ == s.last().email_address@);
                assert(false);
            }
            assert forall|a: int, b: int| 0 <= a < b < d.len() implies
                (#[trigger] d[a].email_address@) != (#[trigger] d[b].email_address@) by {
                if b < dp.len() {
                    assert(d[a] == dp[a] && d[b] == dp[b]);
                } else {
                    assert(d[b] == s.last());
                    assert(d[a] == dp[a]);
                }
            }
        }
    }
}

} // verus!
