//! Valuing an account against banks and price feeds that are looked up by
//! bank key.

use crate::fixed_point::I80F48;
use crate::layout::Pubkey;
use crate::marginfi::errors::{BalanceSide, HealthError, HealthErrorKind};
use crate::marginfi::types::bank::Bank;
use crate::marginfi::types::price::OraclePriceFeedAdapter;
use crate::marginfi::types::user_account::{Balance, MarginfiAccount};
use crate::marginfi::user::{
    spec_maintenance, spec_total, spec_total_prefix, spec_weighted_prefix, BankAccount,
    MarginfiUserAccount,
};
use vstd::prelude::*;

verus! {

/// A value filed under a bank's key.
#[derive(Clone, Copy, Debug)]
pub struct Keyed<T> {
    pub key: Pubkey,
    pub value: T,
}

/// The place of the first entry at or behind `from` that is filed under
/// `key`, if there is one.
pub open spec fn spec_find_from<T>(entries: Seq<Keyed<T>>, key: Seq<u8>, from: int) -> Option<int>
    decreases entries.len() - from,
{
    if from < 0 || from >= entries.len() {
        None
    } else if entries[from].key@ == key {
        Some(from)
    } else {
        spec_find_from(entries, key, from + 1)
    }
}

/// The place of the first entry that is filed under `key`.
pub open spec fn spec_find<T>(entries: Seq<Keyed<T>>, key: Seq<u8>) -> Option<int> {
    spec_find_from(entries, key, 0)
}

/// A search finds the first entry under the key, and finds none exactly when
/// no entry is filed under it.
pub proof fn lemma_find<T>(entries: Seq<Keyed<T>>, key: Seq<u8>, from: int)
    requires
        0 <= from,
    ensures
        match spec_find_from(entries, key, from) {
            Some(i) => from <= i < entries.len() && entries[i].key@ == key && forall|j: int|
                from <= j < i ==> entries[j].key@ != key,
            None => forall|j: int| from <= j < entries.len() ==> entries[j].key@ != key,
        },
    decreases entries.len() - from,
{
    if from < entries.len() && entries[from].key@ != key {
        lemma_find(entries, key, from + 1);
    }
}

/// Looks up the first entry filed under `key`.
pub fn find_by_key<T>(entries: &Vec<Keyed<T>>, key: &Pubkey) -> (r: Option<usize>)
    ensures
        match r {
            Some(i) => spec_find(entries@, key@) == Some(i as int),
            None => spec_find(entries@, key@) == None::<int>,
        },
{
    let mut i: usize = 0;
    while i < entries.len()
        invariant
            i <= entries@.len(),
            spec_find(entries@, key@) == spec_find_from(entries@, key@, i as int),
        decreases entries@.len() - i,
    {
        if entries[i].key.same(key) {
            return Some(i);
        }
        i += 1;
    }
    None
}

/// The positions among the first `n` slots that need a bank, each with the
/// bank and the feed filed under its bank key; or the first lookup that
/// found nothing. The error counts the positions put together before it.
pub open spec fn spec_positions_prefix(
    slots: Seq<Balance>,
    banks_by_key: Seq<Keyed<Bank>>,
    feeds_by_key: Seq<Keyed<OraclePriceFeedAdapter>>,
    n: nat,
) -> Result<Seq<BankAccount>, HealthError>
    decreases n,
{
    if n == 0 {
        Ok(Seq::empty())
    } else {
        match spec_positions_prefix(slots, banks_by_key, feeds_by_key, (n - 1) as nat) {
            Err(e) => Err(e),
            Ok(before) => {
                let slot = slots[n - 1];
                if !slot.spec_is_referenced() {
                    Ok(before)
                } else {
                    match spec_find(banks_by_key, slot.bank_pk@) {
                        None => Err(
                            HealthError {
                                kind: HealthErrorKind::MissingBank,
                                position: before.len() as usize,
                                side: slot.spec_first_side(),
                            },
                        ),
                        Some(b) => match spec_find(feeds_by_key, slot.bank_pk@) {
                            None => Err(
                                HealthError {
                                    kind: HealthErrorKind::MissingFeed,
                                    position: before.len() as usize,
                                    side: slot.spec_first_side(),
                                },
                            ),
                            Some(f) => Ok(
                                before.push(
                                    BankAccount {
                                        bank: banks_by_key[b].value,
                                        price_feed: feeds_by_key[f].value,
                                        balance: slot,
                                    },
                                ),
                            ),
                        },
                    }
                }
            },
        }
    }
}

/// What valuing an account gives.
#[derive(Clone, Copy, Debug, PartialEq, Eq, Structural)]
pub struct HealthReport {
    /// Dollar value of all deposits.
    pub asset_value: I80F48,
    /// Dollar value of all borrows.
    pub liability_value: I80F48,
    /// Maintenance margin.
    pub margin: I80F48,
    /// Whether the margin is negative.
    pub liquidatable: bool,
}

/// The report on a list of positions: both sums, the margin, and whether
/// the margin is negative.
pub open spec fn spec_report(positions: Seq<BankAccount>) -> Result<HealthReport, HealthError> {
    match spec_total(positions, BalanceSide::Assets) {
        Err(e) => Err(e),
        Ok(asset_value) => match spec_total(positions, BalanceSide::Liabilities) {
            Err(e) => Err(e),
            Ok(liability_value) => match spec_maintenance(positions) {
                Err(e) => Err(e),
                Ok(margin) => Ok(
                    HealthReport {
                        asset_value,
                        liability_value,
                        margin,
                        liquidatable: margin.bits < 0,
                    },
                ),
            },
        },
    }
}

/// The report on an account: its positions are put together with their
/// banks and feeds, then valued.
pub open spec fn spec_evaluate(
    account: MarginfiAccount,
    banks_by_key: Seq<Keyed<Bank>>,
    feeds_by_key: Seq<Keyed<OraclePriceFeedAdapter>>,
) -> Result<HealthReport, HealthError> {
    match spec_positions_prefix(account.lending_account.balances@, banks_by_key, feeds_by_key, 16) {
        Err(e) => Err(e),
        Ok(positions) => spec_report(positions),
    }
}

impl MarginfiUserAccount {
    /// The report on the account's positions.
    pub fn report(&self) -> (r: Result<HealthReport, HealthError>)
        ensures
            r == spec_report(self.bank_accounts@),
    {
        let asset_value = match self.asset_value() {
            Ok(v) => v,
            Err(e) => {
                return Err(e);
            },
        };
        let liability_value = match self.liability_value() {
            Ok(v) => v,
            Err(e) => {
                return Err(e);
            },
        };
        let margin = match self.maintenance() {
            Ok(v) => v,
            Err(e) => {
                return Err(e);
            },
        };
        Ok(HealthReport { asset_value, liability_value, margin, liquidatable: margin.is_negative() })
    }
}

/// Values an account against banks and price feeds filed under bank keys.
///
/// Each position that is in use and holds shares needs the bank and the
/// feed filed under its bank key; a position without shares needs neither.
/// The first position whose bank or feed is missing ends the evaluation with
/// a lookup error, and so does the first oracle error or overflow during
/// valuation: no report is made of a part of the account.
pub fn evaluate(
    account: &MarginfiAccount,
    banks_by_key: &Vec<Keyed<Bank>>,
    feeds_by_key: &Vec<Keyed<OraclePriceFeedAdapter>>,
) -> (r: Result<HealthReport, HealthError>)
    ensures
        r == spec_evaluate(*account, banks_by_key@, feeds_by_key@),
{
    let mut bank_accounts: Vec<BankAccount> = Vec::new();
    let mut i: usize = 0;
    while i < 16
        invariant
            i <= 16,
            bank_accounts@.len() <= i,
            spec_positions_prefix(
                account.lending_account.balances@,
                banks_by_key@,
                feeds_by_key@,
                i as nat,
            ) == Ok::<Seq<BankAccount>, HealthError>(bank_accounts@),
        decreases 16 - i,
    {
        let slot = account.lending_account.balances[i];
        if slot.is_referenced() {
            let b = match find_by_key(banks_by_key, &slot.bank_pk) {
                Some(b) => b,
                None => {
                    proof {
                        lemma_positions_error_stays(
                            account.lending_account.balances@,
                            banks_by_key@,
                            feeds_by_key@,
                            (i + 1) as nat,
                            16,
                        );
                    }
                    return Err(
                        HealthError {
                            kind: HealthErrorKind::MissingBank,
                            position: bank_accounts.len(),
                            side: slot.first_side(),
                        },
                    );
                },
            };
            let f = match find_by_key(feeds_by_key, &slot.bank_pk) {
                Some(f) => f,
                None => {
                    proof {
                        lemma_positions_error_stays(
                            account.lending_account.balances@,
                            banks_by_key@,
                            feeds_by_key@,
                            (i + 1) as nat,
                            16,
                        );
                    }
                    return Err(
                        HealthError {
                            kind: HealthErrorKind::MissingFeed,
                            position: bank_accounts.len(),
                            side: slot.first_side(),
                        },
                    );
                },
            };
            proof {
                lemma_find(banks_by_key@, slot.bank_pk@, 0);
                lemma_find(feeds_by_key@, slot.bank_pk@, 0);
            }
            bank_accounts.push(
                BankAccount {
                    bank: banks_by_key[b].value,
                    price_feed: feeds_by_key[f].value,
                    balance: slot,
                },
            );
        }
        i += 1;
    }
    let user = MarginfiUserAccount { account: *account, bank_accounts };
    user.report()
}

/// A lookup that failed among the first `n` slots is the outcome for every
/// longer run of slots.
pub proof fn lemma_positions_error_stays(
    slots: Seq<Balance>,
    banks_by_key: Seq<Keyed<Bank>>,
    feeds_by_key: Seq<Keyed<OraclePriceFeedAdapter>>,
    n: nat,
    m: nat,
)
    requires
        n <= m,
        spec_positions_prefix(slots, banks_by_key, feeds_by_key, n) is Err,
    ensures
        spec_positions_prefix(slots, banks_by_key, feeds_by_key, m) == spec_positions_prefix(
            slots,
            banks_by_key,
            feeds_by_key,
            n,
        ),
    decreases m,
{
    if n < m {
        lemma_positions_error_stays(slots, banks_by_key, feeds_by_key, n, (m - 1) as nat);
    }
}

/// The error of putting positions together is always a failed lookup, and
/// a slot that needs a bank under which none is filed always gives one.
pub proof fn lemma_missing_bank_prefix(
    slots: Seq<Balance>,
    banks_by_key: Seq<Keyed<Bank>>,
    feeds_by_key: Seq<Keyed<OraclePriceFeedAdapter>>,
    n: nat,
)
    ensures
        spec_positions_prefix(slots, banks_by_key, feeds_by_key, n) matches Err(e) ==> e.kind
            == HealthErrorKind::MissingBank || e.kind == HealthErrorKind::MissingFeed,
        (exists|k: int|
            0 <= k < n && slots[k].spec_is_referenced() && spec_find(banks_by_key, slots[k].bank_pk@)
                is None) ==> spec_positions_prefix(slots, banks_by_key, feeds_by_key, n) is Err,
    decreases n,
{
    if n > 0 {
        lemma_missing_bank_prefix(slots, banks_by_key, feeds_by_key, (n - 1) as nat);
    }
}

/// An account with a position that holds shares in a bank under whose key
/// no bank is filed is never valued: the evaluation fails with a lookup
/// error.
pub proof fn lemma_missing_bank_fails(
    account: MarginfiAccount,
    banks_by_key: Seq<Keyed<Bank>>,
    feeds_by_key: Seq<Keyed<OraclePriceFeedAdapter>>,
    slot: int,
)
    requires
        0 <= slot < 16,
        account.lending_account.balances@[slot].spec_is_referenced(),
        forall|j: int|
            0 <= j < banks_by_key.len() ==> banks_by_key[j].key@
                != account.lending_account.balances@[slot].bank_pk@,
    ensures
        spec_evaluate(account, banks_by_key, feeds_by_key) matches Err(e) && (e.kind
            == HealthErrorKind::MissingBank || e.kind == HealthErrorKind::MissingFeed),
{
    let slots = account.lending_account.balances@;
    lemma_find(banks_by_key, slots[slot].bank_pk@, 0);
    lemma_missing_bank_prefix(slots, banks_by_key, feeds_by_key, 16);
}

/// Slots without shares need no bank: putting them together gives no
/// position and asks for no lookup.
pub proof fn lemma_no_shares_no_positions(
    slots: Seq<Balance>,
    banks_by_key: Seq<Keyed<Bank>>,
    feeds_by_key: Seq<Keyed<OraclePriceFeedAdapter>>,
    n: nat,
)
    requires
        forall|k: int| 0 <= k < n ==> !slots[k].spec_is_referenced(),
    ensures
        spec_positions_prefix(slots, banks_by_key, feeds_by_key, n) == Ok::<
            Seq<BankAccount>,
            HealthError,
        >(Seq::empty()),
    decreases n,
{
    if n > 0 {
        lemma_no_shares_no_positions(slots, banks_by_key, feeds_by_key, (n - 1) as nat);
    }
}

/// An account whose slots hold no shares on either side is worth nothing,
/// owes nothing, has a margin of zero and cannot be liquidated, whatever
/// banks and feeds are supplied.
pub proof fn lemma_no_shares_zero_report(
    account: MarginfiAccount,
    banks_by_key: Seq<Keyed<Bank>>,
    feeds_by_key: Seq<Keyed<OraclePriceFeedAdapter>>,
)
    requires
        forall|k: int|
            0 <= k < 16 ==> (#[trigger] account.lending_account.balances@[k]).spec_is_empty(
                BalanceSide::Assets,
            ) && account.lending_account.balances@[k].spec_is_empty(BalanceSide::Liabilities),
    ensures
        spec_evaluate(account, banks_by_key, feeds_by_key) == Ok::<HealthReport, HealthError>(
            HealthReport {
                asset_value: I80F48::spec_zero(),
                liability_value: I80F48::spec_zero(),
                margin: I80F48::spec_zero(),
                liquidatable: false,
            },
        ),
{
    lemma_no_shares_no_positions(account.lending_account.balances@, banks_by_key, feeds_by_key, 16);
    let none = Seq::<BankAccount>::empty();
    assert(spec_total_prefix(none, BalanceSide::Assets, 0) == Ok::<I80F48, HealthError>(
        I80F48::spec_zero(),
    ));
    assert(spec_total_prefix(none, BalanceSide::Liabilities, 0) == Ok::<I80F48, HealthError>(
        I80F48::spec_zero(),
    ));
    assert(spec_weighted_prefix(none, 0) == Ok::<(I80F48, I80F48), HealthError>(
        (I80F48::spec_zero(), I80F48::spec_zero()),
    ));
}

/// Positions that hold no shares on either side add nothing: both sums and
/// the margin are zero, whatever their banks and feeds say.
pub proof fn lemma_empty_positions_zero(positions: Seq<BankAccount>, n: nat)
    requires
        n <= positions.len(),
        forall|k: int|
            0 <= k < n ==> (#[trigger] positions[k]).balance.spec_is_empty(BalanceSide::Assets)
                && positions[k].balance.spec_is_empty(BalanceSide::Liabilities),
    ensures
        spec_total_prefix(positions, BalanceSide::Assets, n) == Ok::<I80F48, HealthError>(
            I80F48::spec_zero(),
        ),
        spec_total_prefix(positions, BalanceSide::Liabilities, n) == Ok::<I80F48, HealthError>(
            I80F48::spec_zero(),
        ),
        spec_weighted_prefix(positions, n) == Ok::<(I80F48, I80F48), HealthError>(
            (I80F48::spec_zero(), I80F48::spec_zero()),
        ),
    decreases n,
{
    if n > 0 {
        lemma_empty_positions_zero(positions, (n - 1) as nat);
        let last = positions[n - 1];
        assert(last.balance.spec_is_empty(BalanceSide::Assets));
    }
}

} // verus!
