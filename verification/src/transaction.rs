//! Whether a transaction can still be used. A transaction is open until it
//! is committed or rolled back; after that every use of it is refused.
use vstd::prelude::*;

verus! {

/// The refusal of a transaction that was already committed or rolled back.
pub enum TransactionError {
    Inactive,
}

/// The text of the refusal.
pub open spec fn transaction_error_text() -> Seq<char> {
    seq![
        't', 'r', 'a', 'n', 's', 'a', 'c', 't', 'i', 'o', 'n', ' ', 'i', 's', ' ', 'n', 'o', ' ',
        'l', 'o', 'n', 'g', 'e', 'r', ' ', 'a', 'c', 't', 'i', 'v', 'e',
    ]
}

impl TransactionError {
    /// The message of the refusal: `transaction is no longer active`.
    pub fn message(&self) -> (text: String)
        ensures
            text@ == transaction_error_text(),
    {
        proof {
            reveal_strlit("transaction is no longer active");
        }
        String::from_str("transaction is no longer active")
    }
}

/// Whether a transaction is still open.
pub struct TransactionState {
    active: bool,
}

/// What can be done with a transaction.
pub enum TransactionOp {
    /// Open a collection inside the transaction.
    Collection,
    /// Commit it.
    Commit,
    /// Roll it back.
    Rollback,
}

/// Whether the operation finishes the transaction.
pub open spec fn finishes(op: TransactionOp) -> bool {
    op is Commit || op is Rollback
}

/// Whether the operation is allowed on a transaction in this state.
pub open spec fn op_allowed(active: bool, op: TransactionOp) -> bool {
    active
}

/// Whether the transaction is open after the operation.
pub open spec fn active_after(active: bool, op: TransactionOp) -> bool {
    if finishes(op) {
        false
    } else {
        active
    }
}

/// How many operations of a sequence, applied from the given state,
/// finish the transaction and are allowed.
pub open spec fn successful_finishes(active: bool, ops: Seq<TransactionOp>) -> nat
    decreases ops.len(),
{
    if ops.len() == 0 {
        0
    } else {
        let op = ops[0];
        let here: nat = if finishes(op) && op_allowed(active, op) {
            1
        } else {
            0
        };
        here + successful_finishes(active_after(active, op), ops.drop_first())
    }
}

impl TransactionState {
    /// Whether the transaction is open.
    pub closed spec fn active(&self) -> bool {
        self.active
    }

    /// A newly started transaction, which is open.
    pub fn new() -> (state: TransactionState)
        ensures
            state.active(),
    {
        TransactionState { active: true }
    }

    /// Whether the transaction is open.
    pub fn is_active(&self) -> (active: bool)
        ensures
            active == self.active(),
    {
        self.active
    }

    /// Allows a use that does not finish the transaction (opening a
    /// collection in it) exactly when it is open; the state is unchanged.
    pub fn check_active(&self) -> (res: Result<(), TransactionError>)
        ensures
            res is Ok <==> op_allowed(self.active(), TransactionOp::Collection),
    {
        if self.active {
            Ok(())
        } else {
            Err(TransactionError::Inactive)
        }
    }

    /// Finishes the transaction for a commit or a rollback. This is allowed
    /// exactly when it is open; either way it is closed afterwards.
    pub fn finish(&mut self) -> (res: Result<(), TransactionError>)
        ensures
            res is Ok <==> op_allowed(old(self).active(), TransactionOp::Commit),
            final(self).active() == active_after(old(self).active(), TransactionOp::Commit),
            !final(self).active(),
    {
        let was_active = self.active;
        self.active = false;
        if was_active {
            Ok(())
        } else {
            Err(TransactionError::Inactive)
        }
    }
}

/// Whatever operations are applied to a transaction, at most one commit or
/// rollback is allowed, and none when it starts closed.
pub proof fn lemma_finished_at_most_once(active: bool, ops: Seq<TransactionOp>)
    ensures
        successful_finishes(active, ops) <= 1,
        !active ==> successful_finishes(active, ops) == 0,
    decreases ops.len(),
{
    if ops.len() > 0 {
        lemma_finished_at_most_once(active_after(active, ops[0]), ops.drop_first());
        if finishes(ops[0]) {
            lemma_finished_at_most_once(false, ops.drop_first());
        }
    }
}

/// The state after a sequence of operations.
pub open spec fn active_after_all(active: bool, ops: Seq<TransactionOp>) -> bool
    decreases ops.len(),
{
    if ops.len() == 0 {
        active
    } else {
        active_after_all(active_after(active, ops[0]), ops.drop_first())
    }
}

/// A closed transaction stays closed, whatever is done with it, so it
/// refuses every later use.
pub proof fn lemma_closed_stays_closed(ops: Seq<TransactionOp>, op: TransactionOp)
    ensures
        !active_after_all(false, ops),
        !op_allowed(active_after_all(false, ops), op),
    decreases ops.len(),
{
    if ops.len() > 0 {
        lemma_closed_stays_closed(ops.drop_first(), op);
    }
}

} // verus!
