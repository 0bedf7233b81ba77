use vstd::prelude::*;

use crate::error::{init_check, spec_init_check, ExecuteError, InitError};
use crate::operation::{LastOperation, Operation};

verus! {

/// What a successful operation returns: its result, and the part of the
/// payment that is owed back to the caller.
#[derive(Clone, Copy, Debug, PartialEq, Eq, Structural)]
pub struct ExecuteOutcome {
    pub result: i32,
    pub refund: u128,
}

impl ExecuteOutcome {
    /// Whether a transfer of the refund back to the caller is due.
    pub fn refund_due(&self) -> (r: bool)
        ensures
            r == (self.refund > 0),
    {
        self.refund > 0
    }
}

/// The price of the storage taken: bytes added times the price of a byte.
pub open spec fn storage_cost(storage_byte_cost: u128, bytes_added: u64) -> int {
    storage_byte_cost as int * bytes_added as int
}

/// What is left of the payment after the storage is paid for, or
/// `Underpayment` where the payment does not cover it.
pub open spec fn spec_storage_refund(
    deposit: u128,
    storage_byte_cost: u128,
    bytes_added: u64,
) -> Result<u128, ExecuteError> {
    if deposit as int >= storage_cost(storage_byte_cost, bytes_added) {
        Ok((deposit as int - storage_cost(storage_byte_cost, bytes_added)) as u128)
    } else {
        Err(ExecuteError::Underpayment)
    }
}

/// The record reported for `caller`: the stored one, or `{NONE, 0, 0, 0}`.
pub open spec fn spec_last_result(
    history: Map<Seq<char>, LastOperation>,
    caller: Seq<char>,
) -> LastOperation {
    if history.contains_key(caller) {
        history[caller]
    } else {
        LastOperation::spec_none()
    }
}

/// Charges a payment for `bytes_added` bytes of storage at
/// `storage_byte_cost` each, and returns the surplus. A cost too large for a
/// `u128` exceeds every payment, so it is an underpayment too.
pub fn storage_refund(deposit: u128, storage_byte_cost: u128, bytes_added: u64) -> (r: Result<
    u128,
    ExecuteError,
>)
    ensures
        r == spec_storage_refund(deposit, storage_byte_cost, bytes_added),
{
    match storage_byte_cost.checked_mul(bytes_added as u128) {
        Some(cost) => match deposit.checked_sub(cost) {
            Some(surplus) => Ok(surplus),
            None => Err(ExecuteError::Underpayment),
        },
        None => Err(ExecuteError::Underpayment),
    }
}

/// A caller that has performed no operation is reported `{NONE, 0, 0, 0}`.
pub proof fn lemma_no_prior_execution(history: Map<Seq<char>, LastOperation>, caller: Seq<char>)
    requires
        !history.contains_key(caller),
    ensures
        spec_last_result(history, caller) == LastOperation::spec_none(),
{
}

/// Once an operation of `caller` has been recorded, the caller is reported
/// exactly that record; a second operation replaces it rather than adding to
/// it; and the records of other callers are left as they were.
pub proof fn lemma_last_write_wins(
    history: Map<Seq<char>, LastOperation>,
    caller: Seq<char>,
    other: Seq<char>,
    first: (Operation, i32, i32),
    second: (Operation, i32, i32),
)
    ensures
        ({
            let once = history.insert(caller, LastOperation::spec_of(first.0, first.1, first.2));
            let twice = once.insert(caller, LastOperation::spec_of(second.0, second.1, second.2));
            &&& spec_last_result(once, caller) == LastOperation::spec_of(first.0, first.1, first.2)
            &&& spec_last_result(twice, caller) == LastOperation::spec_of(
                second.0,
                second.1,
                second.2,
            )
            &&& twice.dom() == once.dom()
            &&& other != caller ==> spec_last_result(twice, other) == spec_last_result(
                history,
                other,
            )
        }),
{
    let once = history.insert(caller, LastOperation::spec_of(first.0, first.1, first.2));
    let twice = once.insert(caller, LastOperation::spec_of(second.0, second.1, second.2));
    assert(twice.dom() =~= once.dom());
}

/// The operation service: it performs operations for callers and keeps, for
/// each caller, the record of the last one.
pub struct MathOperation {
    operation_history: Vec<(String, LastOperation)>,
    history: Ghost<Map<Seq<char>, LastOperation>>,
}

impl View for MathOperation {
    type V = Map<Seq<char>, LastOperation>;

    /// The last record of each caller that has one, keyed by account id.
    closed spec fn view(&self) -> Map<Seq<char>, LastOperation> {
        self.history@
    }
}

impl MathOperation {
    /// One entry per caller, and the entries are exactly the view.
    pub closed spec fn wf(&self) -> bool {
        let entries = self.operation_history@;
        &&& forall|i: int, j: int|
            0 <= i < j < entries.len() ==> #[trigger] entries[i].0@ != #[trigger] entries[j].0@
        &&& forall|i: int|
            0 <= i < entries.len() ==> self.history@.contains_key(#[trigger] entries[i].0@)
                && self.history@[entries[i].0@] == entries[i].1
        &&& forall|k: Seq<char>|
            #[trigger] self.history@.contains_key(k) ==> exists|i: int|
                0 <= i < entries.len() && #[trigger] entries[i].0@ == k
    }

    /// Creates the service with an empty history. Only the service's own
    /// account may do so, and only once.
    pub fn new(
        predecessor_account_id: &String,
        current_account_id: &String,
        state_exists: bool,
    ) -> (r: Result<MathOperation, InitError>)
        ensures
            match r {
                Ok(s) => spec_init_check(predecessor_account_id@, current_account_id@, state_exists)
                    is Ok && s.wf() && s@ == Map::<Seq<char>, LastOperation>::empty(),
                Err(e) => spec_init_check(predecessor_account_id@, current_account_id@, state_exists)
                    == Err::<(), InitError>(e),
            },
    {
        match init_check(predecessor_account_id, current_account_id, state_exists) {
            Ok(()) => Ok(MathOperation { operation_history: Vec::new(), history: Ghost(Map::empty()) }),
            Err(e) => Err(e),
        }
    }

    /// The position of `caller`'s entry, if it has one.
    fn find(&self, caller: &String) -> (r: Option<usize>)
        requires
            self.wf(),
        ensures
            match r {
                Some(i) => i < self.operation_history@.len() && self.operation_history@[i as int].0@
                    == caller@,
                None => !self@.contains_key(caller@),
            },
    {
        let mut i: usize = 0;
        while i < self.operation_history.len()
            invariant
                self.wf(),
                i <= self.operation_history@.len(),
                forall|j: int| 0 <= j < i ==> #[trigger] self.operation_history@[j].0@ != caller@,
            decreases self.operation_history@.len() - i,
        {
            if self.operation_history[i].0 == *caller {
                return Some(i);
            }
            i = i + 1;
        }
        None
    }

    /// Performs an operation for `caller` and pays for the storage its record
    /// takes, `bytes_added` bytes at `storage_byte_cost` each, out of
    /// `deposit`. Where the payment covers the cost, the record replaces the
    /// caller's previous one and the surplus is returned as the refund; where
    /// it does not, the call fails with `Underpayment` and nothing is written.
    pub fn execute_operation(
        &mut self,
        caller: &String,
        op_1: i32,
        op_2: i32,
        operator: Operation,
        deposit: u128,
        storage_byte_cost: u128,
        bytes_added: u64,
    ) -> (r: Result<ExecuteOutcome, ExecuteError>)
        requires
            old(self).wf(),
        ensures
            final(self).wf(),
            match spec_storage_refund(deposit, storage_byte_cost, bytes_added) {
                Ok(refund) => r == Ok::<ExecuteOutcome, ExecuteError>(
                    ExecuteOutcome { result: crate::operation::spec_apply(operator, op_1, op_2), refund },
                ) && final(self)@ == old(self)@.insert(
                    caller@,
                    LastOperation::spec_of(operator, op_1, op_2),
                ),
                Err(e) => r == Err::<ExecuteOutcome, ExecuteError>(e) && final(self)@ == old(self)@,
            },
    {
        let refund = match storage_refund(deposit, storage_byte_cost, bytes_added) {
            Ok(refund) => refund,
            Err(e) => return Err(e),
        };
        let record = LastOperation::of(operator, op_1, op_2);
        let ghost key = caller@;
        let ghost pos: int;
        match self.find(caller) {
            Some(i) => {
                self.operation_history.set(i, (caller.clone(), record));
                proof {
                    pos = i as int;
                }
            },
            None => {
                self.operation_history.push((caller.clone(), record));
                proof {
                    pos = self.operation_history@.len() - 1;
                }
            },
        }
        self.history = Ghost(self.history@.insert(key, record));
        proof {
            let entries = self.operation_history@;
            let before = old(self).operation_history@;
            assert(entries[pos].0@ == key);
            assert forall|i: int| 0 <= i < entries.len() && i != pos implies #[trigger] entries[i]
                == before[i] by {}
            assert forall|k: Seq<char>| #[trigger] self.history@.contains_key(k) implies exists|i: int|
                0 <= i < entries.len() && #[trigger] entries[i].0@ == k by {
                if k != key {
                    let i = choose|i: int|
                        0 <= i < before.len() && #[trigger] before[i].0@ == k;
                    assert(entries[i] == before[i]);
                    assert(entries[i].0@ == k);
                } else {
                    assert(entries[pos].0@ == k);
                }
            }
        }
        Ok(ExecuteOutcome { result: record.result, refund })
    }

    /// The record of `caller`'s last operation, or `{NONE, 0, 0, 0}` where it
    /// has performed none.
    pub fn last_operation_result(&self, caller: &String) -> (r: LastOperation)
        requires
            self.wf(),
        ensures
            r == spec_last_result(self@, caller@),
    {
        match self.find(caller) {
            Some(i) => self.operation_history[i].1,
            None => LastOperation::none(),
        }
    }
}

} // verus!
