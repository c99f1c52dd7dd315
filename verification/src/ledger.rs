//! Holdings, transfers between them, and a ledger that keeps the balances.

use vstd::prelude::*;
use vstd::std_specs::cmp::PartialEqSpecImpl;
use crate::error::TransferError;
use crate::identity::Identity;

verus! {

/// A place on the ledger where value rests.
#[derive(Clone, Copy, Debug)]
pub enum Holding {
    /// A party's own funds.
    Party(Identity),
    /// The funds held in trust for one escrow, named by the escrow's
    /// identifier. No party can spend from it.
    Custody(u64),
}

impl PartialEq for Holding {
    fn eq(&self, other: &Holding) -> (same: bool) {
        match (self, other) {
            (Holding::Party(a), Holding::Party(b)) => a == b,
            (Holding::Custody(a), Holding::Custody(b)) => *a == *b,
            _ => false,
        }
    }
}

impl PartialEqSpecImpl for Holding {
    open spec fn obeys_eq_spec() -> bool {
        true
    }

    open spec fn eq_spec(&self, other: &Holding) -> bool {
        *self == *other
    }
}

impl Eq for Holding {}

/// An order to move `amount` from `source` to `destination`.
#[derive(Clone, Copy, Debug)]
pub struct TransferRequest {
    pub source: Holding,
    pub destination: Holding,
    pub amount: u64,
}

/// Balances are defined for every holding and fit in 64 bits.
pub open spec fn valid_balances(balances: Map<Holding, nat>) -> bool {
    &&& forall|h: Holding| balances.dom().contains(h)
    &&& forall|h: Holding| #[trigger] balances[h] <= u64::MAX
}

/// What a transfer does to a table of balances.
///
/// The transfer is refused when the source holds less than the amount, or
/// when the destination could not hold the sum. Otherwise the amount leaves
/// the source and arrives at the destination, and no other balance moves.
/// A refused transfer has no effect at all.
pub open spec fn transfer_outcome(balances: Map<Holding, nat>, request: TransferRequest) -> Result<
    Map<Holding, nat>,
    TransferError,
> {
    if balances[request.source] < request.amount {
        Err(TransferError::InsufficientFunds)
    } else {
        let debited = balances.insert(
            request.source,
            (balances[request.source] - request.amount) as nat,
        );
        if debited[request.destination] + request.amount > u64::MAX {
            Err(TransferError::Rejected)
        } else {
            Ok(
                debited.insert(
                    request.destination,
                    (debited[request.destination] + request.amount) as nat,
                ),
            )
        }
    }
}

/// What a deposit does to a table of balances: the amount is added to the
/// holding, unless the sum would not fit.
pub open spec fn deposit_outcome(balances: Map<Holding, nat>, holding: Holding, amount: u64) -> Result<
    Map<Holding, nat>,
    TransferError,
> {
    if balances[holding] + amount > u64::MAX {
        Err(TransferError::Rejected)
    } else {
        Ok(balances.insert(holding, (balances[holding] + amount) as nat))
    }
}

struct Entry {
    holding: Holding,
    balance: u64,
}

/// Whether entry `i` is the one that keeps the balance of `holding`.
spec fn keeps(entries: Seq<Entry>, holding: Holding, i: int) -> bool {
    0 <= i < entries.len() && entries[i].holding == holding
}

/// No holding has two entries.
spec fn distinct(entries: Seq<Entry>) -> bool {
    forall|i: int, j: int|
        0 <= i < entries.len() && 0 <= j < entries.len() && i != j ==> entries[i].holding
            != entries[j].holding
}

/// The balance that the entries give to `holding`: that of its entry, or
/// zero when it has none.
spec fn balance_in(entries: Seq<Entry>, holding: Holding) -> u64 {
    if exists|i: int| keeps(entries, holding, i) {
        entries[choose|i: int| keeps(entries, holding, i)].balance
    } else {
        0
    }
}

proof fn lemma_balance_at(entries: Seq<Entry>, i: int)
    requires
        distinct(entries),
        0 <= i < entries.len(),
    ensures
        balance_in(entries, entries[i].holding) == entries[i].balance,
{
    assert(keeps(entries, entries[i].holding, i));
}

proof fn lemma_balance_absent(entries: Seq<Entry>, holding: Holding)
    requires
        forall|i: int| !keeps(entries, holding, i),
    ensures
        balance_in(entries, holding) == 0,
{
}

/// Writing `value` into entry `at` changes the balance of that entry's
/// holding and of no other.
proof fn lemma_balance_after_update(before: Seq<Entry>, after: Seq<Entry>, at: int, other: Holding)
    requires
        distinct(before),
        0 <= at < before.len(),
        after.len() == before.len(),
        forall|i: int| 0 <= i < before.len() ==> after[i].holding == before[i].holding,
        forall|i: int| 0 <= i < before.len() && i != at ==> after[i].balance == before[i].balance,
    ensures
        distinct(after),
        balance_in(after, before[at].holding) == after[at].balance,
        other != before[at].holding ==> balance_in(after, other) == balance_in(before, other),
{
    lemma_balance_at(after, at);
    if other != before[at].holding {
        if exists|i: int| keeps(before, other, i) {
            let i = choose|i: int| keeps(before, other, i);
            assert(keeps(after, other, i));
            lemma_balance_at(before, i);
            lemma_balance_at(after, i);
        } else {
            assert forall|i: int| !keeps(after, other, i) by {
                assert(!keeps(before, other, i));
            }
            lemma_balance_absent(after, other);
        }
    }
}

/// A new entry for a holding that had none gives that holding its balance
/// and leaves every other balance alone.
proof fn lemma_balance_after_push(before: Seq<Entry>, entry: Entry, other: Holding)
    requires
        distinct(before),
        forall|i: int| !keeps(before, entry.holding, i),
    ensures
        distinct(before.push(entry)),
        balance_in(before.push(entry), entry.holding) == entry.balance,
        other != entry.holding ==> balance_in(before.push(entry), other) == balance_in(
            before,
            other,
        ),
{
    let after = before.push(entry);
    assert forall|i: int, j: int|
        0 <= i < after.len() && 0 <= j < after.len() && i != j implies after[i].holding
        != after[j].holding by {
        assert(!keeps(before, entry.holding, i));
        assert(!keeps(before, entry.holding, j));
    }
    lemma_balance_at(after, before.len() as int);
    if other != entry.holding {
        if exists|i: int| keeps(before, other, i) {
            let i = choose|i: int| keeps(before, other, i);
            assert(keeps(after, other, i));
            lemma_balance_at(before, i);
            lemma_balance_at(after, i);
        } else {
            assert forall|i: int| !keeps(after, other, i) by {
                assert(!keeps(before, other, i));
            }
            lemma_balance_absent(after, other);
        }
    }
}

/// Balances kept in memory, one for every holding. A holding that was never
/// credited has a balance of zero.
pub struct Ledger {
    entries: Vec<Entry>,
}

impl View for Ledger {
    type V = Map<Holding, nat>;

    open spec fn view(&self) -> Map<Holding, nat> {
        Map::total(|h: Holding| self.spec_balance(h) as nat)
    }
}

impl Ledger {
    /// The ledger keeps one balance for each holding. Every ledger that
    /// this module hands out is well formed, and every operation keeps it so.
    pub closed spec fn wf(&self) -> bool {
        distinct(self.entries@)
    }

    /// The balance of `holding`.
    pub closed spec fn spec_balance(&self, holding: Holding) -> u64 {
        balance_in(self.entries@, holding)
    }

    /// A ledger on which every balance is zero.
    pub fn new() -> (ledger: Ledger)
        ensures
            ledger.wf(),
            forall|h: Holding| #[trigger] ledger@[h] == 0,
    {
        let ledger = Ledger { entries: Vec::new() };
        proof {
            assert forall|h: Holding| #[trigger] ledger@[h] == 0 by {
                lemma_balance_absent(ledger.entries@, h);
            }
        }
        ledger
    }

    /// The index of the entry of `holding`, if it has one.
    fn position(&self, holding: &Holding) -> (found: Option<usize>)
        ensures
            match found {
                Some(i) => keeps(self.entries@, *holding, i as int),
                None => forall|i: int| !keeps(self.entries@, *holding, i),
            },
    {
        let mut i: usize = 0;
        while i < self.entries.len()
            invariant
                i <= self.entries.len(),
                forall|j: int| 0 <= j < i ==> !keeps(self.entries@, *holding, j),
            decreases self.entries.len() - i,
        {
            if self.entries[i].holding == *holding {
                return Some(i);
            }
            i += 1;
        }
        None
    }

    /// The balance of `holding`.
    pub fn balance(&self, holding: &Holding) -> (balance: u64)
        requires
            self.wf(),
        ensures
            balance == self@[*holding],
    {
        match self.position(holding) {
            Some(i) => {
                proof {
                    lemma_balance_at(self.entries@, i as int);
                }
                self.entries[i].balance
            },
            None => {
                proof {
                    lemma_balance_absent(self.entries@, *holding);
                }
                0
            },
        }
    }

    /// Sets the balance of `holding` to `balance`.
    fn set_balance(&mut self, holding: Holding, balance: u64)
        requires
            old(self).wf(),
        ensures
            final(self).wf(),
            final(self)@ == old(self)@.insert(holding, balance as nat),
    {
        let ghost before = self.entries@;
        match self.position(&holding) {
            Some(i) => {
                self.entries[i].balance = balance;
                proof {
                    lemma_balance_after_update(before, self.entries@, i as int, holding);
                    assert forall|h: Holding| #[trigger] self@[h] == old(self)@.insert(holding, balance as nat)[h] by {
                        lemma_balance_after_update(before, self.entries@, i as int, h);
                    }
                }
            },
            None => {
                let entry = Entry { holding, balance };
                self.entries.push(entry);
                proof {
                    lemma_balance_after_push(before, entry, holding);
                    assert forall|h: Holding| #[trigger] self@[h] == old(self)@.insert(holding, balance as nat)[h] by {
                        lemma_balance_after_push(before, entry, h);
                    }
                }
            },
        }
        assert(self@ =~= old(self)@.insert(holding, balance as nat));
    }

    /// Adds `amount` to `holding`, out of nothing. The deposit is refused,
    /// and changes nothing, when the sum would not fit in 64 bits.
    pub fn deposit(&mut self, holding: Holding, amount: u64) -> (done: Result<(), TransferError>)
        requires
            old(self).wf(),
        ensures
            final(self).wf(),
            match deposit_outcome(old(self)@, holding, amount) {
                Ok(balances) => done is Ok && final(self)@ == balances,
                Err(e) => done == Err::<(), TransferError>(e) && final(self)@ == old(self)@,
            },
    {
        let current = self.balance(&holding);
        if amount > u64::MAX - current {
            return Err(TransferError::Rejected);
        }
        self.set_balance(holding, current + amount);
        Ok(())
    }

    /// Moves `request.amount` from `request.source` to
    /// `request.destination`, or refuses and changes nothing.
    pub fn transfer(&mut self, request: &TransferRequest) -> (done: Result<(), TransferError>)
        requires
            old(self).wf(),
        ensures
            final(self).wf(),
            match transfer_outcome(old(self)@, *request) {
                Ok(balances) => done is Ok && final(self)@ == balances,
                Err(e) => done == Err::<(), TransferError>(e) && final(self)@ == old(self)@,
            },
    {
        let available = self.balance(&request.source);
        if available < request.amount {
            return Err(TransferError::InsufficientFunds);
        }
        let remaining = available - request.amount;
        let held = if request.source == request.destination {
            remaining
        } else {
            self.balance(&request.destination)
        };
        if request.amount > u64::MAX - held {
            return Err(TransferError::Rejected);
        }
        self.set_balance(request.source, remaining);
        self.set_balance(request.destination, held + request.amount);
        Ok(())
    }
}

} // verus!
