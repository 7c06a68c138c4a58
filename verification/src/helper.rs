//! Which signature records fall in a range of days, and which transaction
//! is the first credit of an account.

use crate::date::{lemma_range_boundary, CalendarDate, DateRange};
use crate::error::AssignmentError;
use vstd::prelude::*;

verus! {

/// One entry of the ledger's list of signatures for an address.
#[derive(Clone, Debug, PartialEq, Eq)]
pub struct SignatureRecord {
    pub signature: String,
    /// The Unix time of the block, where the ledger knows it.
    pub block_time: Option<i64>,
}

/// A signature record with the day on which its block time falls where the
/// report is made.
#[derive(Clone, Debug, PartialEq, Eq)]
pub struct DatedRecord {
    pub record: SignatureRecord,
    pub date: CalendarDate,
}

/// Every record has a block time.
pub open spec fn all_timed(records: Seq<SignatureRecord>) -> bool {
    forall|i: int| 0 <= i < records.len() ==> (#[trigger] records[i]).block_time is Some
}

/// The block times of the records, in order, where each has one.
pub open spec fn times_of(records: Seq<SignatureRecord>) -> Seq<i64> {
    records.map_values(|record: SignatureRecord| record.block_time->0)
}

/// The records without their days.
pub open spec fn records_of(dated: Seq<DatedRecord>) -> Seq<SignatureRecord> {
    dated.map_values(|item: DatedRecord| item.record)
}

/// The records whose day lies in `range`, in their order.
pub open spec fn in_range(dated: Seq<DatedRecord>, range: DateRange) -> Seq<DatedRecord> {
    dated.filter(|item: DatedRecord| range.includes(item.date))
}

/// `places` says where in `whole` each item of `part` stands, and the places
/// rise.
pub open spec fn picks<T>(part: Seq<T>, whole: Seq<T>, places: Seq<int>) -> bool {
    &&& places.len() == part.len()
    &&& forall|i: int|
        0 <= i < places.len() ==> 0 <= #[trigger] places[i] < whole.len() && part[i]
            == whole[places[i]]
    &&& forall|i: int, j: int| 0 <= i < j < places.len() ==> places[i] < places[j]
}

/// `part` is `whole` with some items left out and the others in their order.
pub open spec fn is_subsequence<T>(part: Seq<T>, whole: Seq<T>) -> bool {
    exists|places: Seq<int>| picks(part, whole, places)
}

/// The block times of the records, in order. One record without a block
/// time fails the whole list.
pub fn block_times(records: &Vec<SignatureRecord>) -> (times: Result<Vec<i64>, AssignmentError>)
    ensures
        all_timed(records@) ==> times is Ok && times->Ok_0@ == times_of(records@),
        !all_timed(records@) ==> times == Err::<Vec<i64>, AssignmentError>(
            AssignmentError::BlockTimeMissing,
        ),
{
    let mut times: Vec<i64> = Vec::new();
    let mut index: usize = 0;
    while index < records.len()
        invariant
            index <= records.len(),
            all_timed(records@.take(index as int)),
            times@ == times_of(records@.take(index as int)),
        decreases records.len() - index,
    {
        match records[index].block_time {
            Some(time) => times.push(time),
            None => {
                return Err(AssignmentError::BlockTimeMissing);
            },
        }
        assert(times@ =~= times_of(records@.take(index + 1)));
        index += 1;
    }
    assert(records@.take(records.len() as int) =~= records@);
    Ok(times)
}

/// Whether every record has a block time.
fn have_block_times(dated: &Vec<DatedRecord>) -> (answer: bool)
    ensures
        answer == all_timed(records_of(dated@)),
{
    let mut index: usize = 0;
    while index < dated.len()
        invariant
            index <= dated.len(),
            all_timed(records_of(dated@.take(index as int))),
        decreases dated.len() - index,
    {
        if dated[index].record.block_time.is_none() {
            assert(records_of(dated@)[index as int].block_time is None);
            return false;
        }
        assert(records_of(dated@.take(index + 1)) =~= records_of(
            dated@.take(index as int),
        ).push(dated@[index as int].record));
        index += 1;
    }
    assert(dated@.take(dated.len() as int) =~= dated@);
    true
}

/// Keeps the records whose day lies in `range`.
pub fn retain_in_range(dated: Vec<DatedRecord>, range: &DateRange) -> (kept: Vec<DatedRecord>)
    ensures
        kept@ == in_range(dated@, *range),
{
    let ghost all = dated@;
    let ghost wanted = |item: DatedRecord| range.includes(item.date);
    let mut kept: Vec<DatedRecord> = Vec::new();
    proof {
        reveal(Seq::filter);
        assert(all.take(0).filter(wanted) =~= Seq::<DatedRecord>::empty());
    }
    for item in it: dated.into_iter()
        invariant
            it.seq() == all,
            wanted == |item: DatedRecord| range.includes(item.date),
            kept@ == all.take(it.index()).filter(wanted),
    {
        proof {
            let before = all.take(it.index());
            assert(all.take(it.index() + 1) =~= before.push(item));
            before.lemma_filter_push(item, wanted);
        }
        if range.contains(&item.date) {
            kept.push(item);
        }
    }
    assert(all.take(all.len() as int) =~= all);
    kept
}

/// Drops the days again.
pub fn strip_dates(dated: Vec<DatedRecord>) -> (records: Vec<SignatureRecord>)
    ensures
        records@ == records_of(dated@),
{
    let ghost all = dated@;
    let mut records: Vec<SignatureRecord> = Vec::new();
    for item in it: dated.into_iter()
        invariant
            it.seq() == all,
            records@.len() == it.index(),
            forall|j: int| 0 <= j < records@.len() ==> #[trigger] records@[j] == all[j].record,
    {
        records.push(item.record);
    }
    assert(records@ =~= records_of(all));
    records
}

/// Leaving records out of a list keeps the others in their order.
pub proof fn lemma_in_range_keeps_order(dated: Seq<DatedRecord>, range: DateRange)
    ensures
        is_subsequence(in_range(dated, range), dated),
        is_subsequence(records_of(in_range(dated, range)), records_of(dated)),
    decreases dated.len(),
{
    reveal(Seq::filter);
    let wanted = |item: DatedRecord| range.includes(item.date);
    if dated.len() == 0 {
        let places = Seq::<int>::empty();
        assert(picks(in_range(dated, range), dated, places));
        assert(picks(records_of(in_range(dated, range)), records_of(dated), places));
    } else {
        let front = dated.drop_last();
        lemma_in_range_keeps_order(front, range);
        let places = choose|places: Seq<int>| picks(in_range(front, range), front, places);
        if wanted(dated.last()) {
            let longer = places.push(dated.len() - 1);
            assert(in_range(dated, range) == in_range(front, range).push(dated.last()));
            assert(picks(in_range(dated, range), dated, longer));
            assert(picks(records_of(in_range(dated, range)), records_of(dated), longer));
        } else {
            assert(in_range(dated, range) == in_range(front, range));
            assert(picks(in_range(dated, range), dated, places));
            assert(picks(records_of(in_range(dated, range)), records_of(dated), places));
        }
    }
}

/// Every record that is kept has its day in the range.
pub proof fn lemma_in_range_days(dated: Seq<DatedRecord>, range: DateRange)
    ensures
        forall|i: int|
            0 <= i < in_range(dated, range).len() ==> range.includes(
                (#[trigger] in_range(dated, range)[i]).date,
            ),
{
    let wanted = |item: DatedRecord| range.includes(item.date);
    assert forall|i: int| 0 <= i < in_range(dated, range).len() implies range.includes(
        (#[trigger] in_range(dated, range)[i]).date,
    ) by {
        dated.lemma_filter_pred(wanted, i);
    }
}

/// A list whose days all lie in the range is kept whole.
pub proof fn lemma_in_range_keeps_all(dated: Seq<DatedRecord>, range: DateRange)
    requires
        forall|i: int| 0 <= i < dated.len() ==> range.includes((#[trigger] dated[i]).date),
    ensures
        in_range(dated, range) == dated,
    decreases dated.len(),
{
    reveal(Seq::filter);
    if dated.len() > 0 {
        let front = dated.drop_last();
        lemma_in_range_keeps_all(front, range);
        assert(front.push(dated.last()) =~= dated);
    }
}

/// Filtering what was filtered with the same range changes nothing.
pub proof fn lemma_in_range_twice(dated: Seq<DatedRecord>, range: DateRange)
    ensures
        in_range(in_range(dated, range), range) == in_range(dated, range),
{
    lemma_in_range_days(dated, range);
    lemma_in_range_keeps_all(in_range(dated, range), range);
}

/// A record whose day is the first or the last day of a range that is the
/// right way round is kept.
pub proof fn lemma_boundary_days_are_kept(dated: Seq<DatedRecord>, range: DateRange, i: int)
    requires
        0 <= i < dated.len(),
        range.start.not_after(range.end),
        dated[i].date == range.start || dated[i].date == range.end,
    ensures
        in_range(dated, range).contains(dated[i]),
{
    let wanted = |item: DatedRecord| range.includes(item.date);
    dated.lemma_filter_contains(wanted, i);
}

/// A record whose day is the day before the first day of the range, or the
/// day after its last, is not kept.
pub proof fn lemma_days_outside_are_dropped(dated: Seq<DatedRecord>, range: DateRange, i: int)
    requires
        0 <= i < dated.len(),
        range.is_valid(),
        dated[i].date == range.start.day_before() || dated[i].date == range.end.day_after(),
    ensures
        !in_range(dated, range).contains(dated[i]),
{
    lemma_range_boundary(range);
    lemma_in_range_days(dated, range);
}

/// Keeps the records whose day lies from `start_date` to `end_date`, both
/// included, and hands them back without their days. One record without a
/// block time fails the whole list.
pub fn filter_data_start_end_date(
    dated: Vec<DatedRecord>,
    start_date: CalendarDate,
    end_date: CalendarDate,
) -> (kept: Result<Vec<SignatureRecord>, AssignmentError>)
    ensures
        !all_timed(records_of(dated@)) ==> kept == Err::<Vec<SignatureRecord>, AssignmentError>(
            AssignmentError::BlockTimeMissing,
        ),
        all_timed(records_of(dated@)) ==> kept is Ok && kept->Ok_0@ == records_of(
            in_range(dated@, DateRange { start: start_date, end: end_date }),
        ),
        kept matches Ok(records) ==> is_subsequence(records@, records_of(dated@)),
{
    let range = DateRange { start: start_date, end: end_date };
    if !have_block_times(&dated) {
        return Err(AssignmentError::BlockTimeMissing);
    }
    proof {
        lemma_in_range_keeps_order(dated@, range);
    }
    Ok(strip_dates(retain_in_range(dated, &range)))
}

/// How many token balances a transaction of a new user has before it.
pub const NEW_USER_PRE_ENTRIES: usize = 0;

/// How many token balances a transaction of a new user has after it.
pub const NEW_USER_POST_ENTRIES: usize = 1;

/// The balance reported for a new user before the credit, in units of
/// 0.000000001 token.
pub const NEW_USER_PRE_BALANCE: u64 = 0;

/// The balance reported for a new user after the credit, in units of
/// 0.000000001 token.
pub const NEW_USER_POST_BALANCE: u64 = 1;

/// The token balance of one account, before or after a transaction.
#[derive(Clone, Debug, PartialEq, Eq)]
pub struct TokenBalance {
    /// The address of the account's owner, where the ledger reports it.
    pub owner: Option<String>,
    /// The amount in the token's smallest unit, in decimal digits.
    pub amount: String,
}

/// What a transaction's metadata says of token balances. A list is `None`
/// where the ledger does not report it, which is not an empty list.
#[derive(Clone, Debug, PartialEq, Eq)]
pub struct TransactionMeta {
    pub pre_token_balances: Option<Vec<TokenBalance>>,
    pub post_token_balances: Option<Vec<TokenBalance>>,
}

/// A transaction as the ledger returns it for a signature.
#[derive(Clone, Debug, PartialEq, Eq)]
pub struct TransactionRecord {
    pub meta: Option<TransactionMeta>,
    /// The signatures of the transaction, where its encoding carries them.
    pub signatures: Option<Vec<String>>,
}

/// An account that received its first credit.
#[derive(Clone, Debug, PartialEq, Eq)]
pub struct NewUserData {
    pub signatures: Vec<String>,
    pub owner: String,
    /// In units of 0.000000001 token.
    pub pre_token_balance: u64,
    /// In units of 0.000000001 token.
    pub post_token_balance: u64,
}

pub struct TokenBalanceView {
    pub owner: Option<Seq<char>>,
    pub amount: Seq<char>,
}

pub struct TransactionMetaView {
    pub pre_token_balances: Option<Seq<TokenBalanceView>>,
    pub post_token_balances: Option<Seq<TokenBalanceView>>,
}

pub struct TransactionRecordView {
    pub meta: Option<TransactionMetaView>,
    pub signatures: Option<Seq<Seq<char>>>,
}

pub struct NewUserDataView {
    pub signatures: Seq<Seq<char>>,
    pub owner: Seq<char>,
    pub pre_token_balance: nat,
    pub post_token_balance: nat,
}

/// The texts of a list of strings.
pub open spec fn texts_of(items: Seq<String>) -> Seq<Seq<char>> {
    items.map_values(|item: String| item@)
}

/// The views of a list of balances.
pub open spec fn balances_of(items: Seq<TokenBalance>) -> Seq<TokenBalanceView> {
    items.map_values(|item: TokenBalance| item@)
}

impl View for TokenBalance {
    type V = TokenBalanceView;

    open spec fn view(&self) -> TokenBalanceView {
        TokenBalanceView {
            owner: match self.owner {
                Some(owner) => Some(owner@),
                None => None,
            },
            amount: self.amount@,
        }
    }
}

impl View for TransactionMeta {
    type V = TransactionMetaView;

    open spec fn view(&self) -> TransactionMetaView {
        TransactionMetaView {
            pre_token_balances: match self.pre_token_balances {
                Some(balances) => Some(balances_of(balances@)),
                None => None,
            },
            post_token_balances: match self.post_token_balances {
                Some(balances) => Some(balances_of(balances@)),
                None => None,
            },
        }
    }
}

impl View for TransactionRecord {
    type V = TransactionRecordView;

    open spec fn view(&self) -> TransactionRecordView {
        TransactionRecordView {
            meta: match self.meta {
                Some(meta) => Some(meta@),
                None => None,
            },
            signatures: match self.signatures {
                Some(signatures) => Some(texts_of(signatures@)),
                None => None,
            },
        }
    }
}

impl View for NewUserData {
    type V = NewUserDataView;

    open spec fn view(&self) -> NewUserDataView {
        NewUserDataView {
            signatures: texts_of(self.signatures@),
            owner: self.owner@,
            pre_token_balance: self.pre_token_balance as nat,
            post_token_balance: self.post_token_balance as nat,
        }
    }
}

/// The token balances before and after a transaction, or why they cannot be
/// had: no metadata, or metadata that does not report one of the two lists.
pub open spec fn token_balances_of(tx: TransactionRecordView) -> Result<
    (Seq<TokenBalanceView>, Seq<TokenBalanceView>),
    AssignmentError,
> {
    match tx.meta {
        None => Err(AssignmentError::EmptyMetaError),
        Some(meta) => match (meta.pre_token_balances, meta.post_token_balances) {
            (Some(before), Some(after)) => Ok((before, after)),
            _ => Err(AssignmentError::EmptyTokenBalanceError),
        },
    }
}

/// A transaction is the first credit of an account where no token balance is
/// listed before it and exactly one after it.
pub open spec fn is_first_credit(
    before: Seq<TokenBalanceView>,
    after: Seq<TokenBalanceView>,
) -> bool {
    before.len() == NEW_USER_PRE_ENTRIES && after.len() == NEW_USER_POST_ENTRIES
}

/// What a transaction says of a new user: the event where it is a first
/// credit, nothing where it is not, and an error where it cannot be read.
/// The balances of the event are fixed; the amounts in the transaction are
/// not looked at.
pub open spec fn new_user_of(tx: TransactionRecordView) -> Result<
    Option<NewUserDataView>,
    AssignmentError,
> {
    match token_balances_of(tx) {
        Err(error) => Err(error),
        Ok((before, after)) => if is_first_credit(before, after) {
            match (after[0].owner, tx.signatures) {
                (None, _) => Err(AssignmentError::UnableToGetTokenAccountOwnerError),
                (Some(_), None) => Err(AssignmentError::UnableToGetUiTransactionError),
                (Some(owner), Some(signatures)) => Ok(
                    Some(
                        NewUserDataView {
                            signatures,
                            owner,
                            pre_token_balance: NEW_USER_PRE_BALANCE as nat,
                            post_token_balance: NEW_USER_POST_BALANCE as nat,
                        },
                    ),
                ),
            }
        } else {
            Ok(None)
        },
    }
}

/// The view of what `check_new_user` returns.
pub open spec fn outcome_view(outcome: Result<Option<NewUserData>, AssignmentError>) -> Result<
    Option<NewUserDataView>,
    AssignmentError,
> {
    match outcome {
        Ok(Some(user)) => Ok(Some(user@)),
        Ok(None) => Ok(None),
        Err(error) => Err(error),
    }
}

/// The view of what `get_data_out_of_option_serializer` returns.
pub open spec fn balances_view(
    balances: Result<(Vec<TokenBalance>, Vec<TokenBalance>), AssignmentError>,
) -> Result<(Seq<TokenBalanceView>, Seq<TokenBalanceView>), AssignmentError> {
    match balances {
        Ok((before, after)) => Ok((balances_of(before@), balances_of(after@))),
        Err(error) => Err(error),
    }
}

fn copy_of_texts(items: &Vec<String>) -> (copy: Vec<String>)
    ensures
        copy@ == items@,
{
    let mut copy: Vec<String> = Vec::new();
    let mut index: usize = 0;
    while index < items.len()
        invariant
            index <= items.len(),
            copy@ == items@.take(index as int),
        decreases items.len() - index,
    {
        copy.push(items[index].clone());
        assert(items@.take(index + 1) =~= items@.take(index as int).push(items@[index as int]));
        index += 1;
    }
    assert(items@.take(items.len() as int) =~= items@);
    copy
}

fn copy_of_balance(balance: &TokenBalance) -> (copy: TokenBalance)
    ensures
        copy == *balance,
{
    let owner = match &balance.owner {
        Some(owner) => Some(owner.clone()),
        None => None,
    };
    TokenBalance { owner, amount: balance.amount.clone() }
}

fn copy_of_balances(items: &Vec<TokenBalance>) -> (copy: Vec<TokenBalance>)
    ensures
        copy@ == items@,
{
    let mut copy: Vec<TokenBalance> = Vec::new();
    let mut index: usize = 0;
    while index < items.len()
        invariant
            index <= items.len(),
            copy@ == items@.take(index as int),
        decreases items.len() - index,
    {
        copy.push(copy_of_balance(&items[index]));
        assert(items@.take(index + 1) =~= items@.take(index as int).push(items@[index as int]));
        index += 1;
    }
    assert(items@.take(items.len() as int) =~= items@);
    copy
}

/// Takes the two lists of token balances out of a transaction's metadata.
pub fn get_data_out_of_option_serializer(status_meta: &TransactionRecord) -> (balances: Result<
    (Vec<TokenBalance>, Vec<TokenBalance>),
    AssignmentError,
>)
    ensures
        balances_view(balances) == token_balances_of(status_meta@),
{
    let meta_data = match &status_meta.meta {
        Some(meta_data) => meta_data,
        None => {
            return Err(AssignmentError::EmptyMetaError);
        },
    };
    let pre_token_balance = match &meta_data.pre_token_balances {
        Some(balances) => balances,
        None => {
            return Err(AssignmentError::EmptyTokenBalanceError);
        },
    };
    let post_token_balance = match &meta_data.post_token_balances {
        Some(balances) => balances,
        None => {
            return Err(AssignmentError::EmptyTokenBalanceError);
        },
    };
    Ok((copy_of_balances(pre_token_balance), copy_of_balances(post_token_balance)))
}

/// Decides whether a transaction is the first credit of an account, and if
/// so, of which.
pub fn check_new_user(data: &TransactionRecord) -> (outcome: Result<
    Option<NewUserData>,
    AssignmentError,
>)
    ensures
        outcome_view(outcome) == new_user_of(data@),
{
    let (pre_token_balances, post_token_balances) = match get_data_out_of_option_serializer(data) {
        Ok(balances) => balances,
        Err(error) => {
            return Err(error);
        },
    };
    if pre_token_balances.len() == NEW_USER_PRE_ENTRIES && post_token_balances.len()
        == NEW_USER_POST_ENTRIES {
        let post_bal_owner = match &post_token_balances[0].owner {
            Some(owner) => owner,
            None => {
                return Err(AssignmentError::UnableToGetTokenAccountOwnerError);
            },
        };
        let signatures = match &data.signatures {
            Some(signatures) => signatures,
            None => {
                return Err(AssignmentError::UnableToGetUiTransactionError);
            },
        };
        return Ok(
            Some(
                NewUserData {
                    signatures: copy_of_texts(signatures),
                    owner: post_bal_owner.clone(),
                    pre_token_balance: NEW_USER_PRE_BALANCE,
                    post_token_balance: NEW_USER_POST_BALANCE,
                },
            ),
        );
    }
    Ok(None)
}


/// A transaction with no token balance before it and one after it, whose
/// account has an owner and whose encoding carries its signatures, reports
/// that owner with the fixed balances, whatever amounts it holds.
pub proof fn lemma_first_credit_is_reported(tx: TransactionRecordView)
    requires
        tx.meta matches Some(meta) && meta.pre_token_balances matches Some(before)
            && meta.post_token_balances matches Some(after) && before.len() == 0 && after.len()
            == 1 && after[0].owner is Some,
        tx.signatures is Some,
    ensures
        new_user_of(tx) == Ok::<Option<NewUserDataView>, AssignmentError>(
            Some(
                NewUserDataView {
                    signatures: tx.signatures->0,
                    owner: tx.meta->0.post_token_balances->0[0].owner->0,
                    pre_token_balance: 0,
                    post_token_balance: 1,
                },
            ),
        ),
{
}

/// A transaction with a token balance before it, or with none or several
/// after it, reports nobody.
pub proof fn lemma_other_shapes_report_nobody(tx: TransactionRecordView)
    requires
        tx.meta matches Some(meta) && meta.pre_token_balances matches Some(before)
            && meta.post_token_balances matches Some(after) && (before.len() > 0 || after.len()
            == 0 || after.len() >= 2),
    ensures
        new_user_of(tx) == Ok::<Option<NewUserDataView>, AssignmentError>(None),
{
}

/// A transaction without metadata fails as such, and a first credit to an
/// account without an owner fails as such.
pub proof fn lemma_unreadable_transactions_fail(tx: TransactionRecordView)
    ensures
        tx.meta is None ==> new_user_of(tx) == Err::<Option<NewUserDataView>, AssignmentError>(
            AssignmentError::EmptyMetaError,
        ),
        (tx.meta matches Some(meta) && meta.pre_token_balances matches Some(before)
            && meta.post_token_balances matches Some(after) && before.len() == 0 && after.len()
            == 1 && after[0].owner is None) ==> new_user_of(tx) == Err::<
            Option<NewUserDataView>,
            AssignmentError,
        >(AssignmentError::UnableToGetTokenAccountOwnerError),
{
}

} // verus!
