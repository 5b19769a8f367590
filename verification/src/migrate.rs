//! The migration of leases to new code, a bounded number at a time.
use vstd::prelude::*;
use crate::address::Addr;
use crate::batch::{Batch, Msg};

verus! {

/// The integer leases are counted in.
pub type MaxLeases = u32;

/// Why a migration fails.
#[derive(PartialEq, Eq, Debug)]
pub enum ContractError {
    /// A customer's record could not be read.
    ParseError { err: String },
    /// A customer has more leases than can be counted.
    TooManyLeases,
}

impl Clone for ContractError {
    fn clone(&self) -> (res: Self)
        ensures
            res == *self,
    {
        match self {
            ContractError::ParseError { err } => ContractError::ParseError { err: err.clone() },
            ContractError::TooManyLeases => ContractError::TooManyLeases,
        }
    }
}

/// The outcome of a step of a migration.
pub type ContractResult<T> = Result<T, ContractError>;

/// A customer and the leases opened for them.
#[derive(PartialEq, Eq, Debug)]
pub struct Customer {
    pub customer: Addr,
    pub leases: Vec<Addr>,
}

/// A customer, or why their record could not be read.
pub type MaybeCustomer = ContractResult<Customer>;

impl Customer {
    /// The customer at `customer` with the leases `leases`.
    pub fn from(customer: Addr, leases: Vec<Addr>) -> (res: Self)
        ensures
            res == (Customer { customer, leases }),
    {
        Customer { customer, leases }
    }
}

/// The instructions of a migration and the customer the next one starts
/// with, if any is left.
#[derive(PartialEq, Eq, Debug)]
pub struct MigrationResult {
    pub msgs: Batch,
    pub next_customer: Option<Addr>,
}

impl MigrationResult {
    /// No instruction and no customer left.
    pub fn default() -> (res: Self)
        ensures
            res.msgs@ == Seq::<Msg>::empty(),
            res.next_customer.is_none(),
    {
        MigrationResult { msgs: Batch::default(), next_customer: None }
    }

    /// The result with `msgs` added after its instructions.
    pub fn try_add_msgs(self, msgs: Batch) -> (res: ContractResult<Self>)
        ensures
            res.is_ok(),
            res.unwrap().msgs@ == self.msgs@ + msgs@,
            res.unwrap().next_customer == self.next_customer,
    {
        Ok(MigrationResult { msgs: self.msgs.merge(msgs), next_customer: self.next_customer })
    }
}

/// The instructions that move `leases` to the code `new_code_id`, one per
/// lease, in order.
pub open spec fn spec_migrate_msgs(leases: Seq<Addr>, new_code_id: u64) -> Seq<Msg> {
    Seq::new(leases.len(), |i: int| Msg::MigrateWasm { contract: leases[i], new_code_id })
}

/// What the migration of `customers` with room for `leases_left` leases
/// comes to. The customers are taken in order. A customer all of whose
/// leases fit has them migrated; the first customer whose leases do not all
/// fit is where the next migration starts, and none of their leases is
/// migrated now. A customer whose record could not be read fails the
/// migration.
pub open spec fn spec_migrate_leases(
    customers: Seq<MaybeCustomer>,
    new_code_id: u64,
    leases_left: MaxLeases,
) -> ContractResult<(Seq<Msg>, Option<Addr>)>
    decreases customers.len(),
{
    if customers.len() == 0 {
        Ok((Seq::empty(), None))
    } else {
        match customers[0] {
            Err(error) => Err(error),
            Ok(customer) => if customer.leases@.len() > MaxLeases::MAX {
                Err(ContractError::TooManyLeases)
            } else if customer.leases@.len() <= leases_left {
                match spec_migrate_leases(
                    customers.skip(1),
                    new_code_id,
                    (leases_left - customer.leases@.len()) as MaxLeases,
                ) {
                    Err(error) => Err(error),
                    Ok((msgs, next_customer)) => Ok(
                        (spec_migrate_msgs(customer.leases@, new_code_id) + msgs, next_customer),
                    ),
                }
            } else {
                Ok((Seq::empty(), Some(customer.customer)))
            },
        }
    }
}

/// The instructions collected so far followed by what is still to come.
pub open spec fn spec_after(msgs: Seq<Msg>, rest: ContractResult<(Seq<Msg>, Option<Addr>)>)
    -> ContractResult<(Seq<Msg>, Option<Addr>)> {
    match rest {
        Err(error) => Err(error),
        Ok((more, next_customer)) => Ok((msgs + more, next_customer)),
    }
}

/// Collects the instructions of one migration and counts the room left.
pub struct MigrateBatch {
    pub new_code_id: u64,
    pub leases_left: MaxLeases,
    pub msgs: Batch,
}

impl MigrateBatch {
    /// An empty collection with room for `max_leases` leases.
    pub fn new(new_code_id: u64, max_leases: MaxLeases) -> (res: Self)
        ensures
            res.new_code_id == new_code_id,
            res.leases_left == max_leases,
            res.msgs@ == Seq::<Msg>::empty(),
    {
        MigrateBatch { new_code_id, leases_left: max_leases, msgs: Batch::default() }
    }

    /// Migrates the leases of `customer` if there is room for all of them.
    /// Returns nothing if there was; otherwise the customer, with whom the
    /// next migration starts, or the error that ends this one.
    pub fn migrate_or_be_next(&mut self, customer: &Customer) -> (res: Option<
        ContractResult<Addr>,
    >)
        ensures
            final(self).new_code_id == old(self).new_code_id,
            customer.leases@.len() > MaxLeases::MAX ==> res == Some(
                Err::<Addr, ContractError>(ContractError::TooManyLeases),
            ) && *final(self) == *old(self),
            customer.leases@.len() <= MaxLeases::MAX && customer.leases@.len() > old(self).leases_left ==> res == Some(Ok::<Addr, ContractError>(customer.customer))
                && *final(self) == *old(self),
            customer.leases@.len() <= old(self).leases_left ==> res.is_none() && final(self).leases_left == old(self).leases_left - customer.leases@.len() && final(self).msgs@
                == old(self).msgs@ + spec_migrate_msgs(customer.leases@, old(self).new_code_id),
    {
        if customer.leases.len() > MaxLeases::MAX as usize {
            return Some(Err(ContractError::TooManyLeases));
        }
        let leases_nb: MaxLeases = customer.leases.len() as MaxLeases;
        match self.leases_left.checked_sub(leases_nb) {
            None => Some(Ok(customer.customer.clone())),
            Some(left) => {
                self.leases_left = left;
                let ghost all = spec_migrate_msgs(customer.leases@, self.new_code_id);
                let mut index: usize = 0;
                assert(old(self).msgs@ + all.take(0) =~= old(self).msgs@);
                while index < customer.leases.len()
                    invariant
                        index <= customer.leases@.len(),
                        self.new_code_id == old(self).new_code_id,
                        self.leases_left == left,
                        all == spec_migrate_msgs(customer.leases@, self.new_code_id),
                        self.msgs@ == old(self).msgs@ + all.take(index as int),
                    decreases customer.leases@.len() - index,
                {
                    self.msgs.schedule_execute_no_reply(
                        Msg::MigrateWasm {
                            contract: customer.leases[index].clone(),
                            new_code_id: self.new_code_id,
                        },
                    );
                    assert(old(self).msgs@ + all.take(index as int + 1) =~= (old(self).msgs@
                        + all.take(index as int)).push(all[index as int]));
                    index = index + 1;
                }
                assert(all.take(customer.leases@.len() as int) =~= all);
                None
            },
        }
    }

    /// The instructions that were collected.
    pub fn into_batch(self) -> (res: Batch)
        ensures
            res == self.msgs,
    {
        self.msgs
    }
}

/// Builds the instructions that migrate the leases of `customers` to the
/// code `lease_code_id`, up to `max_leases` leases, customer by customer.
pub fn migrate_leases(
    customers: &Vec<MaybeCustomer>,
    lease_code_id: u64,
    max_leases: MaxLeases,
) -> (res: ContractResult<MigrationResult>)
    ensures
        match spec_migrate_leases(customers@, lease_code_id, max_leases) {
            Err(error) => res == Err::<MigrationResult, ContractError>(error),
            Ok((msgs, next_customer)) => res.is_ok() && res.unwrap().msgs@ == msgs
                && res.unwrap().next_customer == next_customer,
        },
{
    let mut msgs: MigrateBatch = MigrateBatch::new(lease_code_id, max_leases);
    let mut index: usize = 0;
    proof {
        assert(customers@.skip(0) =~= customers@);
        let whole = spec_migrate_leases(customers@, lease_code_id, max_leases);
        match whole {
            Ok((all, _)) => {
                assert(Seq::<Msg>::empty() + all =~= all);
            },
            Err(_) => {},
        }
    }
    while index < customers.len()
        invariant
            index <= customers@.len(),
            msgs.new_code_id == lease_code_id,
            spec_migrate_leases(customers@, lease_code_id, max_leases) == spec_after(
                msgs.msgs@,
                spec_migrate_leases(customers@.skip(index as int), lease_code_id, msgs.leases_left),
            ),
        decreases customers@.len() - index,
    {
        proof {
            assert(customers@.skip(index as int)[0] == customers@[index as int]);
            assert(customers@.skip(index as int).skip(1) =~= customers@.skip(index as int + 1));
        }
        let ghost before = msgs.msgs@;
        match &customers[index] {
            Err(error) => {
                return Err(error.clone());
            },
            Ok(customer) => match msgs.migrate_or_be_next(customer) {
                Some(Err(error)) => {
                    return Err(error);
                },
                Some(Ok(next)) => {
                    assert(before + Seq::<Msg>::empty() =~= before);
                    return Ok(
                        MigrationResult { msgs: msgs.into_batch(), next_customer: Some(next) },
                    );
                },
                None => {
                    proof {
                        let rest = spec_migrate_leases(
                            customers@.skip(index as int + 1),
                            lease_code_id,
                            msgs.leases_left,
                        );
                        match rest {
                            Ok((more, _)) => {
                                assert((before + spec_migrate_msgs(
                                    customer.leases@,
                                    lease_code_id,
                                )) + more =~= before + (spec_migrate_msgs(
                                    customer.leases@,
                                    lease_code_id,
                                ) + more));
                            },
                            Err(_) => {},
                        }
                    }
                },
            },
        }
        index = index + 1;
    }
    assert(msgs.msgs@ + Seq::<Msg>::empty() =~= msgs.msgs@);
    Ok(MigrationResult { msgs: msgs.into_batch(), next_customer: None })
}

} // verus!
