//! The repository of customers, the events, and the services that apply
//! them.

use vstd::prelude::*;
use vstd::string::StringExecFns;
use std::collections::hash_map::Entry;
use std::collections::HashMap;
use super::customer::can_hold;
use super::customer::first_with_id;
use super::customer::refundable;
use super::customer::spec_cancel_order;
use super::customer::spec_place_order;
use super::customer::Customer;
use super::customer::CustomerView;
use super::customer::Id;
use super::customer::Order;
use super::customer::OrderView;
use super::money::Money;
use super::money::MoneyView;

verus! {

/// The state of a repository: each customer by its id.
pub type Customers = Map<Id, CustomerView>;

/// The outcome of an event: the customers after it, and the error that it
/// ended with, if any.
pub struct Outcome {
    pub customers: Customers,
    pub error: Option<Seq<char>>,
}

/// The outcome of an event that changed one customer.
pub open spec fn changed(customers: Customers, customer: CustomerView) -> Outcome {
    Outcome { customers: customers.insert(customer.id, customer), error: None }
}

/// The outcome of an event that failed and changed nothing.
pub open spec fn failed(customers: Customers, error: Seq<char>) -> Outcome {
    Outcome { customers, error: Some(error) }
}

/// Whether `answer` is the answer that goes with `outcome`.
pub open spec fn answers(answer: Result<(), String>, outcome: Outcome) -> bool {
    match answer {
        Ok(_) => outcome.error is None,
        Err(e) => outcome.error == Some(e@),
    }
}

pub struct InMemoryRepository {
    store: HashMap<Id, Customer>,
}

impl View for InMemoryRepository {
    type V = Customers;

    closed spec fn view(&self) -> Customers {
        self.store@.map_values(|c: Customer| c@)
    }
}

impl InMemoryRepository {
    /// A repository without customers.
    pub fn new() -> (repository: Self)
        ensures
            repository@ == Map::<Id, CustomerView>::empty(),
    {
        let repository = InMemoryRepository { store: HashMap::new() };
        assert(repository@ =~= Map::<Id, CustomerView>::empty());
        repository
    }

    pub fn find(&self, id: &Id) -> (found: Option<&Customer>)
        ensures
            match found {
                Some(customer) => self@.contains_key(*id) && customer@ == self@[*id],
                None => !self@.contains_key(*id),
            },
    {
        self.store.get(id)
    }

    /// Exclusive access to the customer at `id`: what the caller makes of
    /// it is what the repository then holds.
    pub fn find_mut(&mut self, id: &Id) -> (found: Option<&mut Customer>)
        ensures
            match found {
                Some(customer) => {
                    &&& old(self)@.contains_key(*id)
                    &&& customer@ == old(self)@[*id]
                    &&& final(self)@ == old(self)@.insert(*id, final(customer)@)
                },
                None => {
                    &&& !old(self)@.contains_key(*id)
                    &&& final(self)@ == old(self)@
                },
            },
    {
        match self.store.entry(*id) {
            Entry::Occupied(occupied) => Some(occupied.into_mut()),
            Entry::Vacant(_) => None,
        }
    }

    /// Files `customer` under its id, in place of what was filed there.
    pub fn save(&mut self, customer: Customer) -> (saved: Result<(), String>)
        ensures
            saved is Ok,
            final(self)@ == old(self)@.insert(customer@.id, customer@),
    {
        let id = customer.id();
        self.store.insert(id, customer);
        assert(self@ =~= old(self)@.insert(customer@.id, customer@));
        Ok(())
    }
}

pub struct CustomerFactoryImpl;

impl CustomerFactoryImpl {
    pub fn create_customer(&self, id: Id, name: &str, initial_balance: Money) -> (created: Result<
        Customer,
        String,
    >)
        ensures
            match created {
                Ok(customer) => customer@ == (CustomerView {
                    id,
                    name: name@,
                    orders: Seq::empty(),
                    balance: initial_balance@,
                }),
                Err(_) => false,
            },
    {
        Ok(Customer::new(id, name, initial_balance))
    }
}

pub enum CustomerEvent {
    CustomerCreated { id: Id, name: String, initial_balance: Money },
}

pub enum OrderEvent {
    OrderPlaced { customer_id: Id, order_id: Id, amount: Money, description: String },
    OrderCancelled { customer_id: Id, order_id: Id },
}

pub enum BalanceEvent {
    BalanceDeposited { customer_id: Id, amount: Money },
    BalanceWithdrawn { customer_id: Id, amount: Money },
}

/// What a customer event makes of the customers: the new customer is filed
/// under its id, in place of what was filed there.
pub open spec fn spec_customer_event(customers: Customers, event: CustomerEvent) -> Outcome {
    match event {
        CustomerEvent::CustomerCreated { id, name, initial_balance } => changed(
            customers,
            CustomerView { id, name: name@, orders: Seq::empty(), balance: initial_balance@ },
        ),
    }
}

/// What an order event makes of the customers.
pub open spec fn spec_order_event(customers: Customers, event: OrderEvent) -> Outcome {
    match event {
        OrderEvent::OrderPlaced { customer_id, order_id, amount, description } => {
            if !customers.contains_key(customer_id) {
                failed(customers, "Customer not found"@)
            } else {
                match spec_place_order(
                    customers[customer_id],
                    OrderView { id: order_id, amount: amount@, description: description@ },
                ) {
                    Ok(customer) => Outcome {
                        customers: customers.insert(customer_id, customer),
                        error: None,
                    },
                    Err(e) => failed(customers, e),
                }
            }
        },
        OrderEvent::OrderCancelled { customer_id, order_id } => {
            if !customers.contains_key(customer_id) {
                failed(customers, "Customer not found"@)
            } else {
                let customer = customers[customer_id];
                Outcome {
                    customers: customers.insert(customer_id, spec_cancel_order(customer, order_id)),
                    error: if first_with_id(customer.orders, order_id) >= customer.orders.len() {
                        Some("Order not found"@)
                    } else if !refundable(customer, order_id) {
                        Some("Currency mismatch"@)
                    } else {
                        None
                    },
                }
            }
        },
    }
}

/// Whether an order event can be applied within the machine's limits: the
/// amount of a cancelled order must fit beside the balance that it returns
/// to.
pub open spec fn order_event_fits(customers: Customers, event: OrderEvent) -> bool {
    match event {
        OrderEvent::OrderPlaced { .. } => true,
        OrderEvent::OrderCancelled { customer_id, order_id } => customers.contains_key(customer_id)
            && refundable(customers[customer_id], order_id) ==> can_hold(
            customers[customer_id].balance,
            customers[customer_id].orders[first_with_id(
                customers[customer_id].orders,
                order_id,
            )].amount,
        ),
    }
}

/// What a balance event makes of the customers.
pub open spec fn spec_balance_event(customers: Customers, event: BalanceEvent) -> Outcome {
    match event {
        BalanceEvent::BalanceDeposited { customer_id, amount } => {
            if !customers.contains_key(customer_id) {
                failed(customers, "Customer not found"@)
            } else if customers[customer_id].balance.currency != amount@.currency {
                failed(customers, "Currency mismatch"@)
            } else {
                Outcome {
                    customers: customers.insert(
                        customer_id,
                        CustomerView {
                            balance: MoneyView {
                                amount: customers[customer_id].balance.amount + amount@.amount,
                                currency: amount@.currency,
                            },
                            ..customers[customer_id]
                        },
                    ),
                    error: None,
                }
            }
        },
        BalanceEvent::BalanceWithdrawn { customer_id, amount } => {
            if !customers.contains_key(customer_id) {
                failed(customers, "Customer not found"@)
            } else if customers[customer_id].balance.currency != amount@.currency {
                failed(customers, "Currency mismatch"@)
            } else if customers[customer_id].balance.amount < amount@.amount {
                failed(customers, "Insufficient funds"@)
            } else {
                Outcome {
                    customers: customers.insert(
                        customer_id,
                        CustomerView {
                            balance: MoneyView {
                                amount: (customers[customer_id].balance.amount
                                    - amount@.amount) as nat,
                                currency: amount@.currency,
                            },
                            ..customers[customer_id]
                        },
                    ),
                    error: None,
                }
            }
        },
    }
}

/// Whether a balance event can be applied within the machine's limits: a
/// deposit must fit beside the balance.
pub open spec fn balance_event_fits(customers: Customers, event: BalanceEvent) -> bool {
    match event {
        BalanceEvent::BalanceDeposited { customer_id, amount } => customers.contains_key(
            customer_id,
        ) ==> can_hold(customers[customer_id].balance, amount@),
        BalanceEvent::BalanceWithdrawn { .. } => true,
    }
}

pub struct CustomerService {
    factory: CustomerFactoryImpl,
}

impl CustomerService {
    pub fn new(factory: CustomerFactoryImpl) -> (service: Self) {
        CustomerService { factory }
    }

    pub fn handle_event(&self, repository: &mut InMemoryRepository, event: CustomerEvent) -> (handled:
        Result<(), String>)
        ensures
            final(repository)@ == spec_customer_event(old(repository)@, event).customers,
            answers(handled, spec_customer_event(old(repository)@, event)),
    {
        match event {
            CustomerEvent::CustomerCreated { id, name, initial_balance } => {
                let customer = match self.factory.create_customer(
                    id,
                    name.as_str(),
                    initial_balance,
                ) {
                    Ok(customer) => customer,
                    Err(e) => {
                        return Err(e);
                    },
                };
                repository.save(customer)
            },
        }
    }
}

pub struct OrderService;

impl OrderService {
    pub fn new() -> (service: Self) {
        OrderService
    }

    /// Tells whether `handle_event` may be called with `event`.
    pub fn can_handle(&self, repository: &InMemoryRepository, event: &OrderEvent) -> (ok: bool)
        ensures
            ok == order_event_fits(repository@, *event),
    {
        match event {
            OrderEvent::OrderPlaced { .. } => true,
            OrderEvent::OrderCancelled { customer_id, order_id } => match repository.find(
                customer_id,
            ) {
                Some(customer) => customer.can_cancel(*order_id),
                None => true,
            },
        }
    }

    pub fn handle_event(&self, repository: &mut InMemoryRepository, event: OrderEvent) -> (handled:
        Result<(), String>)
        requires
            order_event_fits(old(repository)@, event),
        ensures
            final(repository)@ == spec_order_event(old(repository)@, event).customers,
            answers(handled, spec_order_event(old(repository)@, event)),
    {
        match event {
            OrderEvent::OrderPlaced { customer_id, order_id, amount, description } => {
                match repository.find_mut(&customer_id) {
                    Some(customer) => {
                        match customer.place_order_with_id(order_id, amount, description.as_str()) {
                            Ok(_) => Ok(()),
                            Err(e) => Err(e),
                        }
                    },
                    None => Err(String::from_str("Customer not found")),
                }
            },
            OrderEvent::OrderCancelled { customer_id, order_id } => {
                match repository.find_mut(&customer_id) {
                    Some(customer) => customer.cancel_order(order_id),
                    None => Err(String::from_str("Customer not found")),
                }
            },
        }
    }

    /// The orders of a customer, oldest first.
    pub fn get_orders(&self, repository: &InMemoryRepository, customer_id: Id) -> (orders: Result<
        Vec<Order>,
        String,
    >)
        ensures
            match orders {
                Ok(orders) => {
                    &&& repository@.contains_key(customer_id)
                    &&& orders@.map_values(|o: Order| o@) == repository@[customer_id].orders
                },
                Err(e) => !repository@.contains_key(customer_id) && e@ == "Customer not found"@,
            },
    {
        match repository.find(&customer_id) {
            Some(customer) => {
                let held = customer.get_orders();
                let mut orders: Vec<Order> = Vec::new();
                let mut i: usize = 0;
                while i < held.len()
                    invariant
                        i <= held.len(),
                        orders.len() == i,
                        forall|j: int| 0 <= j < i ==> (#[trigger] orders[j])@ == held[j]@,
                    decreases held.len() - i,
                {
                    orders.push(held[i].clone());
                    i = i + 1;
                }
                assert(orders@.map_values(|o: Order| o@) =~= held@.map_values(|o: Order| o@));
                Ok(orders)
            },
            None => Err(String::from_str("Customer not found")),
        }
    }
}

pub struct BalanceService;

impl BalanceService {
    pub fn new() -> (service: Self) {
        BalanceService
    }

    /// Tells whether `handle_event` may be called with `event`.
    pub fn can_handle(&self, repository: &InMemoryRepository, event: &BalanceEvent) -> (ok: bool)
        ensures
            ok == balance_event_fits(repository@, *event),
    {
        match event {
            BalanceEvent::BalanceDeposited { customer_id, amount } => match repository.find(
                customer_id,
            ) {
                Some(customer) => customer.get_balance().can_add(amount),
                None => true,
            },
            BalanceEvent::BalanceWithdrawn { .. } => true,
        }
    }

    pub fn handle_event(&self, repository: &mut InMemoryRepository, event: BalanceEvent) -> (handled:
        Result<(), String>)
        requires
            balance_event_fits(old(repository)@, event),
        ensures
            final(repository)@ == spec_balance_event(old(repository)@, event).customers,
            answers(handled, spec_balance_event(old(repository)@, event)),
    {
        match event {
            BalanceEvent::BalanceDeposited { customer_id, amount } => {
                match repository.find_mut(&customer_id) {
                    Some(customer) => customer.deposit(amount),
                    None => Err(String::from_str("Customer not found")),
                }
            },
            BalanceEvent::BalanceWithdrawn { customer_id, amount } => {
                match repository.find_mut(&customer_id) {
                    Some(customer) => customer.withdraw(amount),
                    None => Err(String::from_str("Customer not found")),
                }
            },
        }
    }

    /// The balance of a customer.
    pub fn get_balance(&self, repository: &InMemoryRepository, customer_id: Id) -> (balance: Result<
        Money,
        String,
    >)
        ensures
            match balance {
                Ok(money) => {
                    &&& repository@.contains_key(customer_id)
                    &&& money@ == repository@[customer_id].balance
                },
                Err(e) => !repository@.contains_key(customer_id) && e@ == "Customer not found"@,
            },
    {
        match repository.find(&customer_id) {
            Some(customer) => Ok(customer.get_balance().clone()),
            None => Err(String::from_str("Customer not found")),
        }
    }
}

} // verus!
