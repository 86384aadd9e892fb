//! A borrower's positions, at most one for each collateral source.

use vstd::prelude::*;
use crate::error::{transacts, LendingError};
use crate::key::AccountKey;
use crate::loan::LoanType;
use crate::position::{ltv_verdict, InitObligationPositionParams, ObligationPosition};
use crate::wad::PROGRAM_VERSION;

verus! {

/// What a new obligation starts with.
#[derive(Clone, Copy, Debug)]
pub struct InitObligationParams {
    /// Lending market that the obligation belongs to.
    pub lending_market: AccountKey,
    /// Owner, who alone may borrow through the obligation.
    pub owner: AccountKey,
    /// Bump seed of the obligation's address.
    pub bump: u8,
}

/// All the positions of one borrower in one lending market.
#[derive(Debug)]
pub struct Obligation {
    /// Version of the record.
    pub version: u8,
    /// Lending market that the obligation belongs to.
    pub lending_market: AccountKey,
    /// Owner of the obligation.
    pub owner: AccountKey,
    /// The open positions, in the order in which they were opened.
    pub positions: Vec<ObligationPosition>,
    /// Bump seed of the obligation's address.
    pub bump: u8,
}

/// An obligation as a mathematical value.
pub struct ObligationView {
    /// Version of the record.
    pub version: u8,
    /// Lending market that the obligation belongs to.
    pub lending_market: AccountKey,
    /// Owner of the obligation.
    pub owner: AccountKey,
    /// The open positions, in the order in which they were opened.
    pub positions: Seq<ObligationPosition>,
    /// Bump seed of the obligation's address.
    pub bump: u8,
}

/// Some position in `positions` is against `vote_account`.
pub open spec fn holds_source(positions: Seq<ObligationPosition>, vote_account: AccountKey) -> bool {
    exists|i: int|
        0 <= i < positions.len() && (#[trigger] positions[i]).vote_account == vote_account
}

/// The position at `index` is the first in `positions` against
/// `vote_account`.
pub open spec fn is_first_for(
    positions: Seq<ObligationPosition>,
    vote_account: AccountKey,
    index: int,
) -> bool {
    &&& 0 <= index < positions.len()
    &&& positions[index].vote_account == vote_account
    &&& forall|j: int| 0 <= j < index ==> (#[trigger] positions[j]).vote_account != vote_account
}

/// Where the first position against `vote_account` stands in `positions`,
/// if there is one.
pub open spec fn index_of_source(
    positions: Seq<ObligationPosition>,
    vote_account: AccountKey,
) -> int {
    choose|index: int| is_first_for(positions, vote_account, index)
}

/// No two positions are against the same vote account.
pub open spec fn one_position_per_source(positions: Seq<ObligationPosition>) -> bool {
    forall|i: int, j: int|
        0 <= i < j < positions.len() ==> (#[trigger] positions[i]).vote_account != (
        #[trigger] positions[j]).vote_account
}

/// The debt of every position is within its loan class's share of the
/// collateral.
pub open spec fn all_within_ltv(positions: Seq<ObligationPosition>) -> bool {
    forall|i: int| 0 <= i < positions.len() ==> (#[trigger] positions[i]).within_ltv()
}

/// The positions with `position` stored at `at`, or at the end where `at`
/// is `None`.
pub open spec fn stored_at(
    positions: Seq<ObligationPosition>,
    at: Option<usize>,
    position: ObligationPosition,
) -> Seq<ObligationPosition> {
    match at {
        Some(index) => positions.update(index as int, position),
        None => positions.push(position),
    }
}

/// The first position against a vote account is the one that
/// `index_of_source` names.
pub proof fn lemma_first_is_index(
    positions: Seq<ObligationPosition>,
    vote_account: AccountKey,
    index: int,
)
    requires
        is_first_for(positions, vote_account, index),
    ensures
        holds_source(positions, vote_account),
        index_of_source(positions, vote_account) == index,
{
    let chosen = index_of_source(positions, vote_account);
    assert(is_first_for(positions, vote_account, chosen));
    if chosen < index {
        assert(positions[chosen].vote_account != vote_account);
    }
    if index < chosen {
        assert(positions[index].vote_account != vote_account);
    }
}

/// Where some position is against a vote account, `index_of_source` names
/// the first of them.
pub proof fn lemma_index_is_first(positions: Seq<ObligationPosition>, vote_account: AccountKey)
    requires
        holds_source(positions, vote_account),
    ensures
        is_first_for(positions, vote_account, index_of_source(positions, vote_account)),
    decreases positions.len(),
{
    let some = choose|i: int|
        0 <= i < positions.len() && (#[trigger] positions[i]).vote_account == vote_account;
    lemma_first_up_to(positions, vote_account, some);
}

/// Where the position at `bound` is against a vote account, some position
/// at or before `bound` is the first against it.
proof fn lemma_first_up_to(
    positions: Seq<ObligationPosition>,
    vote_account: AccountKey,
    bound: int,
)
    requires
        0 <= bound < positions.len(),
        positions[bound].vote_account == vote_account,
    ensures
        exists|index: int| is_first_for(positions, vote_account, index),
    decreases bound,
{
    if exists|j: int| 0 <= j < bound && (#[trigger] positions[j]).vote_account == vote_account {
        let j = choose|j: int|
            0 <= j < bound && (#[trigger] positions[j]).vote_account == vote_account;
        lemma_first_up_to(positions, vote_account, j);
    } else {
        assert(is_first_for(positions, vote_account, bound));
    }
}

impl View for Obligation {
    type V = ObligationView;

    open spec fn view(&self) -> ObligationView {
        ObligationView {
            version: self.version,
            lending_market: self.lending_market,
            owner: self.owner,
            positions: self.positions@,
            bump: self.bump,
        }
    }
}

impl Clone for Obligation {
    fn clone(&self) -> (copy: Self)
        ensures
            copy@ == self@,
    {
        self.snapshot()
    }
}

impl Default for Obligation {
    fn default() -> (obligation: Self)
        ensures
            obligation@.version == 0,
            obligation@.lending_market.is_zero(),
            obligation@.owner.is_zero(),
            obligation@.positions.len() == 0,
            obligation@.bump == 0,
    {
        Obligation {
            version: 0,
            lending_market: AccountKey::default(),
            owner: AccountKey::default(),
            positions: Vec::new(),
            bump: 0,
        }
    }
}

impl ObligationView {
    /// The empty obligation that `params` describes.
    pub open spec fn new(params: InitObligationParams) -> ObligationView {
        ObligationView {
            version: PROGRAM_VERSION,
            lending_market: params.lending_market,
            owner: params.owner,
            positions: Seq::empty(),
            bump: params.bump,
        }
    }

    /// Where the position against `vote_account` stands: `ObligationPositionEmpty`
    /// for an obligation without positions, `InvalidObligationPositionIndex`
    /// where none of its positions is against `vote_account`.
    pub open spec fn find_position(self, vote_account: AccountKey) -> Result<int, LendingError> {
        if self.positions.len() == 0 {
            Err(LendingError::ObligationPositionEmpty)
        } else if !holds_source(self.positions, vote_account) {
            Err(LendingError::InvalidObligationPositionIndex)
        } else {
            Ok(index_of_source(self.positions, vote_account))
        }
    }

    /// The obligation after a deposit and a borrow against
    /// `params.vote_account`. Where there is no position against that vote
    /// account, one is opened at the end, provided that the debt it starts
    /// with is within its loan class's share of its deposit. Else the
    /// existing one, which must be of the same loan type, takes the deposit
    /// and then the borrow.
    pub open spec fn add_or_create_position(self, params: InitObligationPositionParams) -> Result<
        (ObligationView, ()),
        LendingError,
    > {
        if !holds_source(self.positions, params.vote_account) {
            match ltv_verdict(
                params.borrowed_amount as int,
                params.deposited_amount as int,
                params.loan_type.spec_max_ratio() as int,
            ) {
                Err(e) => Err(e),
                Ok(_) => Ok(
                    (
                        ObligationView {
                            positions: self.positions.push(ObligationPosition::spec_new(params)),
                            ..self
                        },
                        (),
                    ),
                ),
            }
        } else {
            let index = index_of_source(self.positions, params.vote_account);
            let position = self.positions[index];
            if position.loan_type != params.loan_type {
                Err(LendingError::LoanTypeMismatch)
            } else {
                match position.with_deposit(
                    params.deposited_amount,
                    params.weighted_deposited_amount,
                ) {
                    Err(e) => Err(e),
                    Ok((funded, _)) => match funded.with_borrow(params.borrowed_amount) {
                        Err(e) => Err(e),
                        Ok((borrowed, _)) => Ok(
                            (
                                ObligationView {
                                    positions: self.positions.update(index, borrowed),
                                    ..self
                                },
                                (),
                            ),
                        ),
                    },
                }
            }
        }
    }

    /// The obligation after the position against `vote_account` is resolved
    /// at `current_epoch`, with whether that position was liquidatable and
    /// what it collects. The position leaves the obligation either way.
    pub open spec fn repay_or_liquidate(self, vote_account: AccountKey, current_epoch: u64) -> Result<
        (ObligationView, (bool, u64)),
        LendingError,
    > {
        if !holds_source(self.positions, vote_account) {
            Err(LendingError::InvalidObligationPositionIndex)
        } else {
            let index = index_of_source(self.positions, vote_account);
            let position = self.positions[index];
            Ok(
                (
                    ObligationView { positions: self.positions.remove(index), ..self },
                    (
                        position.is_liquidatable(current_epoch),
                        position.collectible_amount(current_epoch) as u64,
                    ),
                ),
            )
        }
    }
}

impl ObligationView {
    /// Depositing and borrowing against a vote account keeps an obligation
    /// at one position for each vote account, leaves it with a position
    /// against that one, and adds a position only where there was none.
    pub proof fn lemma_add_or_create_keeps_one_per_source(
        self,
        params: InitObligationPositionParams,
    )
        requires
            one_position_per_source(self.positions),
            self.add_or_create_position(params) is Ok,
        ensures
            one_position_per_source(self.add_or_create_position(params)->Ok_0.0.positions),
            holds_source(
                self.add_or_create_position(params)->Ok_0.0.positions,
                params.vote_account,
            ),
            holds_source(self.positions, params.vote_account) ==> self.add_or_create_position(
                params,
            )->Ok_0.0.positions.len() == self.positions.len(),
            !holds_source(self.positions, params.vote_account) ==> self.add_or_create_position(
                params,
            )->Ok_0.0.positions.len() == self.positions.len() + 1,
    {
        let next = self.add_or_create_position(params)->Ok_0.0.positions;
        if holds_source(self.positions, params.vote_account) {
            lemma_index_is_first(self.positions, params.vote_account);
            let index = index_of_source(self.positions, params.vote_account);
            assert(next[index].vote_account == params.vote_account);
            assert forall|i: int, j: int| 0 <= i < j < next.len() implies (#[trigger] next[i]).vote_account
                != (#[trigger] next[j]).vote_account by {
                assert(next[i].vote_account == self.positions[i].vote_account);
                assert(next[j].vote_account == self.positions[j].vote_account);
            }
        } else {
            let last = self.positions.len() as int;
            assert(next[last].vote_account == params.vote_account);
            assert forall|i: int, j: int| 0 <= i < j < next.len() implies (#[trigger] next[i]).vote_account
                != (#[trigger] next[j]).vote_account by {
                assert(next[i] == self.positions[i]);
                if j < last {
                    assert(next[j] == self.positions[j]);
                }
            }
        }
    }

    /// Where every position is within its limit, it is so after a deposit
    /// and a borrow too: the limit is enforced on a position that is opened
    /// as on one that there is.
    pub proof fn lemma_add_or_create_keeps_ltv(self, params: InitObligationPositionParams)
        requires
            all_within_ltv(self.positions),
            self.add_or_create_position(params) is Ok,
        ensures
            all_within_ltv(self.add_or_create_position(params)->Ok_0.0.positions),
    {
        let next = self.add_or_create_position(params)->Ok_0.0.positions;
        if holds_source(self.positions, params.vote_account) {
            lemma_index_is_first(self.positions, params.vote_account);
            let index = index_of_source(self.positions, params.vote_account);
            let funded = self.positions[index].with_deposit(
                params.deposited_amount,
                params.weighted_deposited_amount,
            )->Ok_0.0;
            funded.lemma_borrow_keeps_ltv(params.borrowed_amount);
            assert forall|i: int| 0 <= i < next.len() implies (#[trigger] next[i]).within_ltv() by {
                if i != index {
                    assert(next[i] == self.positions[i]);
                }
            }
        } else {
            assert forall|i: int| 0 <= i < next.len() implies (#[trigger] next[i]).within_ltv() by {
                if i < self.positions.len() {
                    assert(next[i] == self.positions[i]);
                }
            }
        }
    }

    /// No position is opened with a debt beyond its loan class's share of
    /// its deposit.
    pub proof fn lemma_no_position_opened_beyond_limit(self, params: InitObligationPositionParams)
        requires
            !holds_source(self.positions, params.vote_account),
            params.deposited_amount > 0,
            params.borrowed_amount * 100 <= u64::MAX,
            params.borrowed_amount * 100 > params.loan_type.spec_max_ratio()
                * params.deposited_amount,
        ensures
            self.add_or_create_position(params) == Err::<(ObligationView, ()), LendingError>(
                LendingError::LoanToValueTooHigh,
            ),
    {
    }

    /// Two calls against a vote account that had no position, with the same
    /// loan type, leave one position for it, which holds the sums of what
    /// the two calls deposited and borrowed.
    pub proof fn lemma_second_call_merges(
        self,
        first: InitObligationPositionParams,
        second: InitObligationPositionParams,
    )
        requires
            !holds_source(self.positions, first.vote_account),
            second.vote_account == first.vote_account,
            second.loan_type == first.loan_type,
            self.add_or_create_position(first) is Ok,
            self.add_or_create_position(first)->Ok_0.0.add_or_create_position(second) is Ok,
        ensures
            self.add_or_create_position(first)->Ok_0.0.add_or_create_position(
                second,
            )->Ok_0.0.positions == self.positions.push(
                ObligationPosition {
                    vote_account: first.vote_account,
                    loan_type: first.loan_type,
                    deposited_amount: (first.deposited_amount + second.deposited_amount) as u64,
                    weighted_deposited_amount: (first.weighted_deposited_amount
                        + second.weighted_deposited_amount) as u64,
                    borrowed_amount: (first.borrowed_amount + second.borrowed_amount) as u64,
                },
            ),
            first.deposited_amount + second.deposited_amount <= u64::MAX,
            first.weighted_deposited_amount + second.weighted_deposited_amount <= u64::MAX,
            first.borrowed_amount + second.borrowed_amount <= u64::MAX,
    {
        let opened = self.add_or_create_position(first)->Ok_0.0;
        let last = self.positions.len() as int;
        assert(opened.positions[last] == ObligationPosition::spec_new(first));
        assert forall|j: int| 0 <= j < last implies (#[trigger] opened.positions[j]).vote_account
            != first.vote_account by {
            assert(opened.positions[j] == self.positions[j]);
        }
        lemma_first_is_index(opened.positions, first.vote_account, last);
        let merged = opened.add_or_create_position(second)->Ok_0.0;
        assert(merged.positions =~= self.positions.push(merged.positions[last]));
    }

    /// A call that names another loan type than the position has is refused.
    pub proof fn lemma_other_loan_type_is_refused(self, params: InitObligationPositionParams)
        requires
            holds_source(self.positions, params.vote_account),
            self.positions[index_of_source(self.positions, params.vote_account)].loan_type
                != params.loan_type,
        ensures
            self.add_or_create_position(params) == Err::<(ObligationView, ()), LendingError>(
                LendingError::LoanTypeMismatch,
            ),
    {
    }

    /// Resolving a position takes it out of the obligation whether or not it
    /// was liquidatable: one position fewer is left, and in an obligation
    /// with one position for each vote account none is left against that
    /// vote account.
    pub proof fn lemma_resolve_removes_position(self, vote_account: AccountKey, current_epoch: u64)
        requires
            self.repay_or_liquidate(vote_account, current_epoch) is Ok,
        ensures
            self.repay_or_liquidate(vote_account, current_epoch)->Ok_0.0.positions.len()
                == self.positions.len() - 1,
            one_position_per_source(self.positions) ==> one_position_per_source(
                self.repay_or_liquidate(vote_account, current_epoch)->Ok_0.0.positions,
            ) && !holds_source(
                self.repay_or_liquidate(vote_account, current_epoch)->Ok_0.0.positions,
                vote_account,
            ),
    {
        lemma_index_is_first(self.positions, vote_account);
        let index = index_of_source(self.positions, vote_account);
        let next = self.repay_or_liquidate(vote_account, current_epoch)->Ok_0.0.positions;
        assert(next == self.positions.remove(index));
        if one_position_per_source(self.positions) {
            assert forall|i: int| 0 <= i < next.len() implies (#[trigger] next[i]).vote_account
                != vote_account by {
                if i < index {
                    assert(next[i] == self.positions[i]);
                } else {
                    assert(next[i] == self.positions[i + 1]);
                    assert(self.positions[index].vote_account != self.positions[i + 1].vote_account);
                }
            }
            assert forall|i: int, j: int| 0 <= i < j < next.len() implies (#[trigger] next[i]).vote_account
                != (#[trigger] next[j]).vote_account by {
                let from_i = if i < index { i } else { i + 1 };
                let from_j = if j < index { j } else { j + 1 };
                assert(next[i] == self.positions[from_i]);
                assert(next[j] == self.positions[from_j]);
                assert(self.positions[from_i].vote_account != self.positions[from_j].vote_account);
            }
        }
    }
}

impl Obligation {
    /// A new obligation without positions.
    pub fn new(params: InitObligationParams) -> (obligation: Self)
        ensures
            obligation@ == ObligationView::new(params),
    {
        Obligation {
            version: PROGRAM_VERSION,
            lending_market: params.lending_market,
            owner: params.owner,
            positions: Vec::new(),
            bump: params.bump,
        }
    }

    /// Makes the obligation a new one without positions.
    pub fn init(&mut self, params: InitObligationParams)
        ensures
            final(self)@ == ObligationView::new(params),
    {
        self.version = PROGRAM_VERSION;
        self.lending_market = params.lending_market;
        self.owner = params.owner;
        self.positions = Vec::new();
        self.bump = params.bump;
    }

    /// A second obligation that holds what this one holds.
    pub fn snapshot(&self) -> (copy: Self)
        ensures
            copy@ == self@,
    {
        let mut positions: Vec<ObligationPosition> = Vec::new();
        let mut i: usize = 0;
        while i < self.positions.len()
            invariant
                i <= self.positions.len(),
                positions@ == self.positions@.take(i as int),
            decreases self.positions.len() - i,
        {
            positions.push(self.positions[i]);
            assert(self.positions@.take(i + 1) == self.positions@.take(i as int).push(
                self.positions@[i as int],
            ));
            i += 1;
        }
        assert(self.positions@.take(i as int) == self.positions@);
        Obligation {
            version: self.version,
            lending_market: self.lending_market,
            owner: self.owner,
            positions,
            bump: self.bump,
        }
    }

    /// Where the first position against `vote_account` stands, if there is
    /// one.
    pub fn find_index(&self, vote_account: AccountKey) -> (found: Option<usize>)
        ensures
            found is Some == holds_source(self@.positions, vote_account),
            found matches Some(index) ==> index == index_of_source(self@.positions, vote_account)
                && is_first_for(self@.positions, vote_account, index as int),
    {
        let mut i: usize = 0;
        while i < self.positions.len()
            invariant
                i <= self.positions.len(),
                forall|j: int| 0 <= j < i ==> (#[trigger] self.positions@[j]).vote_account != vote_account,
            decreases self.positions.len() - i,
        {
            if self.positions[i].vote_account.same_as(&vote_account) {
                proof {
                    lemma_first_is_index(self@.positions, vote_account, i as int);
                }
                return Some(i);
            }
            i += 1;
        }
        None
    }

    /// The position against `vote_account`, and where it stands.
    pub fn find_position(&self, vote_account: AccountKey) -> (found: Result<
        (&ObligationPosition, usize),
        LendingError,
    >)
        ensures
            match self@.find_position(vote_account) {
                Ok(index) => found matches Ok((position, at)) && at == index && at
                    < self@.positions.len() && *position == self@.positions[index],
                Err(e) => found matches Err(error) && error == e,
            },
    {
        if self.positions.len() == 0 {
            return Err(LendingError::ObligationPositionEmpty);
        }
        match self.find_index(vote_account) {
            Some(index) => Ok((&self.positions[index], index)),
            None => Err(LendingError::InvalidObligationPositionIndex),
        }
    }

    /// The loan type of the position against `vote_account`.
    pub fn find_loan_type(&self, vote_account: AccountKey) -> (found: Result<LoanType, LendingError>)
        ensures
            match self@.find_position(vote_account) {
                Ok(index) => found == Ok::<LoanType, LendingError>(
                    self@.positions[index].loan_type,
                ),
                Err(e) => found == Err::<LoanType, LendingError>(e),
            },
    {
        match self.find_position(vote_account) {
            Ok((position, _)) => Ok(position.loan_type),
            Err(e) => Err(e),
        }
    }

    /// The deposit of the position against `vote_account`, and its weight.
    pub fn find_collaterals(&self, vote_account: AccountKey) -> (found: Result<
        (u64, u64),
        LendingError,
    >)
        ensures
            match self@.find_position(vote_account) {
                Ok(index) => found == Ok::<(u64, u64), LendingError>(
                    (
                        self@.positions[index].deposited_amount,
                        self@.positions[index].weighted_deposited_amount,
                    ),
                ),
                Err(e) => found == Err::<(u64, u64), LendingError>(e),
            },
    {
        match self.find_position(vote_account) {
            Ok((position, _)) => Ok(
                (position.deposited_amount, position.weighted_deposited_amount),
            ),
            Err(e) => Err(e),
        }
    }

    /// The debt of the position against `vote_account`.
    pub fn find_liquidity(&self, vote_account: AccountKey) -> (found: Result<u64, LendingError>)
        ensures
            match self@.find_position(vote_account) {
                Ok(index) => found == Ok::<u64, LendingError>(
                    self@.positions[index].borrowed_amount,
                ),
                Err(e) => found == Err::<u64, LendingError>(e),
            },
    {
        match self.find_position(vote_account) {
            Ok((position, _)) => Ok(position.borrowed_amount),
            Err(e) => Err(e),
        }
    }

    /// What a deposit and a borrow against `params.vote_account` would
    /// store, and where: at the place of the position that there is, or at
    /// the end (`None`) where there is none yet. A position that would be
    /// opened beyond its limit is refused like a borrow beyond the limit.
    /// The obligation stays as it is.
    pub fn plan_position(&self, params: InitObligationPositionParams) -> (planned: Result<
        (Option<usize>, ObligationPosition),
        LendingError,
    >)
        ensures
            match self@.add_or_create_position(params) {
                Err(e) => planned matches Err(error) && error == e,
                Ok((next, _)) => planned matches Ok((at, position)) && next.positions
                    == stored_at(self@.positions, at, position) && (at matches Some(index)
                    ==> index < self@.positions.len()),
            },
    {
        match self.find_index(params.vote_account) {
            Some(index) => {
                let mut position: ObligationPosition = self.positions[index];
                if position.loan_type != params.loan_type {
                    return Err(LendingError::LoanTypeMismatch);
                }
                match position.deposit(params.deposited_amount, params.weighted_deposited_amount) {
                    Ok(_) => {},
                    Err(e) => { return Err(e); },
                }
                match position.borrow(params.borrowed_amount) {
                    Ok(_) => {},
                    Err(e) => { return Err(e); },
                }
                Ok((Some(index), position))
            },
            None => {
                let position = ObligationPosition::new(params);
                match position.check_ltv(params.borrowed_amount, params.deposited_amount) {
                    Ok(_) => Ok((None, position)),
                    Err(e) => Err(e),
                }
            },
        }
    }

    /// Stores `position` at `at`, or at the end where `at` is `None`.
    pub fn store_position(&mut self, at: Option<usize>, position: ObligationPosition)
        requires
            at matches Some(index) ==> index < old(self)@.positions.len(),
        ensures
            final(self)@ == (ObligationView {
                positions: stored_at(old(self)@.positions, at, position),
                ..old(self)@
            }),
    {
        match at {
            Some(index) => {
                self.positions.set(index, position);
            },
            None => {
                self.positions.push(position);
            },
        }
    }

    /// Deposits and borrows against `params.vote_account`, opening the
    /// position where there is none yet. The debt must be within the loan
    /// class's share of the deposit afterwards, in a position that is opened
    /// as in one that there is (`LoanToValueTooHigh`; `MathOverflow` where
    /// there is no deposit to hold the debt against).
    pub fn add_or_create_position(&mut self, params: InitObligationPositionParams) -> (done: Result<
        (),
        LendingError,
    >)
        ensures
            transacts(old(self)@, final(self)@, done, old(self)@.add_or_create_position(params)),
    {
        match self.plan_position(params) {
            Ok((at, position)) => {
                self.store_position(at, position);
                Ok(())
            },
            Err(e) => Err(e),
        }
    }

    /// Resolves the position against `vote_account` at `current_epoch` and
    /// takes it out of the obligation: `InvalidObligationPositionIndex`
    /// exactly when there is no such position.
    pub fn repay_or_liquidate(&mut self, vote_account: AccountKey, current_epoch: u64) -> (resolved:
        Result<(bool, u64), LendingError>)
        ensures
            transacts(
                old(self)@,
                final(self)@,
                resolved,
                old(self)@.repay_or_liquidate(vote_account, current_epoch),
            ),
    {
        let index = match self.find_index(vote_account) {
            Some(index) => index,
            None => { return Err(LendingError::InvalidObligationPositionIndex); },
        };
        let status = self.positions[index].get_deposit_status(current_epoch);
        match status {
            Ok(pair) => {
                self.positions.remove(index);
                Ok(pair)
            },
            Err(e) => Err(e),
        }
    }
}

} // verus!
