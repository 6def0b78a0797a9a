//! A customer: a balance, and the orders paid from it.

use vstd::prelude::*;
use vstd::string::StringExecFns;
use super::money::Money;
use super::money::MoneyView;

verus! {

/// Identifies a customer or an order.
pub type Id = u128;

/// An order, as plain values.
pub struct OrderView {
    pub id: Id,
    pub amount: MoneyView,
    pub description: Seq<char>,
}

#[derive(Debug)]
pub struct Order {
    id: Id,
    amount: Money,
    description: String,
}

impl View for Order {
    type V = OrderView;

    closed spec fn view(&self) -> OrderView {
        OrderView { id: self.id, amount: self.amount@, description: self.description@ }
    }
}

impl Clone for Order {
    fn clone(&self) -> (copy: Self)
        ensures
            copy@ == self@,
    {
        Order {
            id: self.id,
            amount: self.amount.clone(),
            description: self.description.clone(),
        }
    }
}

impl Order {
    pub fn new(id: Id, amount: Money, description: &str) -> (order: Self)
        ensures
            order@ == (OrderView { id, amount: amount@, description: description@ }),
    {
        Order { id, amount, description: String::from_str(description) }
    }

    pub fn id(&self) -> (id: Id)
        ensures
            id == self@.id,
    {
        self.id
    }

    pub fn amount(&self) -> (amount: &Money)
        ensures
            amount@ == self@.amount,
    {
        &self.amount
    }

    pub fn description(&self) -> (description: &str)
        ensures
            description@ == self@.description,
    {
        self.description.as_str()
    }
}

/// `Uuid::new_v4`, as a number: an id drawn at random. Nothing is promised
/// of the id.
#[verifier::external_body]
fn fresh_id() -> (id: Id) {
    uuid::Uuid::new_v4().as_u128()
}

/// The order with these values.
pub open spec fn order_of(id: Id, amount: MoneyView, description: Seq<char>) -> OrderView {
    OrderView { id, amount, description }
}

/// A customer, as plain values.
pub struct CustomerView {
    pub id: Id,
    pub name: Seq<char>,
    pub orders: Seq<OrderView>,
    pub balance: MoneyView,
}

/// The place of the first of `orders` with `id`, or the length where there
/// is none.
pub open spec fn first_with_id(orders: Seq<OrderView>, id: Id) -> int
    decreases orders.len(),
{
    if orders.len() == 0 {
        0
    } else if orders.first().id == id {
        0
    } else {
        1 + first_with_id(orders.drop_first(), id)
    }
}

/// `first_with_id` is a place in `orders` or its length, and no order before
/// it has `id`.
pub proof fn lemma_first_with_id(orders: Seq<OrderView>, id: Id)
    ensures
        0 <= first_with_id(orders, id) <= orders.len(),
        first_with_id(orders, id) < orders.len() ==> orders[first_with_id(orders, id)].id == id,
        forall|i: int| 0 <= i < first_with_id(orders, id) ==> (#[trigger] orders[i]).id != id,
    decreases orders.len(),
{
    if orders.len() > 0 && orders.first().id != id {
        let rest = orders.drop_first();
        lemma_first_with_id(rest, id);
        assert forall|i: int| 0 <= i < first_with_id(orders, id) implies (#[trigger] orders[i]).id
            != id by {
            if i > 0 {
                assert(orders[i] == rest[i - 1]);
            }
        }
    }
}

/// What placing an order makes of a customer: the amount leaves the balance
/// and the order joins the orders. A balance that is too small is reported
/// before a currency that differs, and either leaves the customer as it was.
pub open spec fn spec_place_order(customer: CustomerView, order: OrderView) -> Result<
    CustomerView,
    Seq<char>,
> {
    if customer.balance.amount < order.amount.amount {
        Err("Insufficient balance to place order"@)
    } else if customer.balance.currency != order.amount.currency {
        Err("Currency mismatch"@)
    } else {
        Ok(
            CustomerView {
                orders: customer.orders.push(order),
                balance: MoneyView {
                    amount: (customer.balance.amount - order.amount.amount) as nat,
                    currency: customer.balance.currency,
                },
                ..customer
            },
        )
    }
}

/// The customer once the first order with `id` has left its orders.
pub open spec fn without_order(customer: CustomerView, id: Id) -> CustomerView {
    CustomerView { orders: customer.orders.remove(first_with_id(customer.orders, id)), ..customer }
}

/// Whether the first order with `id` can be refunded: there is one, and its
/// amount is in the currency of the balance.
pub open spec fn refundable(customer: CustomerView, id: Id) -> bool {
    let place = first_with_id(customer.orders, id);
    place < customer.orders.len() && customer.orders[place].amount.currency
        == customer.balance.currency
}

/// What cancelling the first order with `id` makes of a customer: the order
/// leaves, and its amount returns to the balance.
pub open spec fn spec_cancel_order(customer: CustomerView, id: Id) -> CustomerView {
    let place = first_with_id(customer.orders, id);
    if place >= customer.orders.len() {
        customer
    } else if !refundable(customer, id) {
        without_order(customer, id)
    } else {
        CustomerView {
            balance: MoneyView {
                amount: customer.balance.amount + customer.orders[place].amount.amount,
                currency: customer.balance.currency,
            },
            ..without_order(customer, id)
        }
    }
}

/// Whether the balance can hold `amount` on top of what it holds.
pub open spec fn can_hold(balance: MoneyView, amount: MoneyView) -> bool {
    balance.currency == amount.currency ==> balance.amount + amount.amount <= u64::MAX
}

#[derive(Debug)]
pub struct Customer {
    id: Id,
    name: String,
    orders: Vec<Order>,
    balance: Money,
}

impl View for Customer {
    type V = CustomerView;

    closed spec fn view(&self) -> CustomerView {
        CustomerView {
            id: self.id,
            name: self.name@,
            orders: self.orders@.map_values(|o: Order| o@),
            balance: self.balance@,
        }
    }
}

impl Clone for Customer {
    fn clone(&self) -> (copy: Self)
        ensures
            copy@ == self@,
    {
        let mut orders: Vec<Order> = Vec::new();
        let mut i: usize = 0;
        while i < self.orders.len()
            invariant
                i <= self.orders.len(),
                orders.len() == i,
                forall|j: int| 0 <= j < i ==> (#[trigger] orders[j])@ == self.orders[j]@,
            decreases self.orders.len() - i,
        {
            orders.push(self.orders[i].clone());
            i = i + 1;
        }
        let copy = Customer {
            id: self.id,
            name: self.name.clone(),
            orders,
            balance: self.balance.clone(),
        };
        assert(copy@.orders =~= self@.orders);
        copy
    }
}

impl Customer {
    /// A customer without orders.
    pub fn new(id: Id, name: &str, initial_balance: Money) -> (customer: Self)
        ensures
            customer@ == (CustomerView {
                id,
                name: name@,
                orders: Seq::empty(),
                balance: initial_balance@,
            }),
    {
        let customer = Customer {
            id,
            name: String::from_str(name),
            orders: Vec::new(),
            balance: initial_balance,
        };
        assert(customer@.orders =~= Seq::<OrderView>::empty());
        customer
    }

    pub fn id(&self) -> (id: Id)
        ensures
            id == self@.id,
    {
        self.id
    }

    pub fn name(&self) -> (name: &str)
        ensures
            name@ == self@.name,
    {
        self.name.as_str()
    }

    /// Places an order under an id drawn at random.
    pub fn place_order(&mut self, amount: Money, description: &str) -> (placed: Result<
        Order,
        String,
    >)
        ensures
            match placed {
                Ok(order) => {
                    &&& order@.amount == amount@
                    &&& order@.description == description@
                    &&& spec_place_order(old(self)@, order@) == Ok::<CustomerView, Seq<char>>(
                        final(self)@,
                    )
                },
                Err(e) => {
                    &&& final(self)@ == old(self)@
                    &&& forall|id: Id|
                        spec_place_order(
                            old(self)@,
                            #[trigger] order_of(id, amount@, description@),
                        ) == Err::<CustomerView, Seq<char>>(e@)
                },
            },
    {
        let placed = self.place_order_with_id(fresh_id(), amount, description);
        assert(forall|id: Id| (#[trigger] order_of(id, amount@, description@)).amount == amount@);
        placed
    }

    /// Places an order under an id of the caller's.
    pub fn place_order_with_id(&mut self, order_id: Id, amount: Money, description: &str) -> (placed:
        Result<Order, String>)
        ensures
            match placed {
                Ok(order) => {
                    &&& order@ == (OrderView {
                        id: order_id,
                        amount: amount@,
                        description: description@,
                    })
                    &&& spec_place_order(old(self)@, order@) == Ok::<CustomerView, Seq<char>>(
                        final(self)@,
                    )
                },
                Err(e) => {
                    &&& final(self)@ == old(self)@
                    &&& spec_place_order(
                        old(self)@,
                        OrderView { id: order_id, amount: amount@, description: description@ },
                    ) == Err::<CustomerView, Seq<char>>(e@)
                },
            },
    {
        if self.balance.amount() < amount.amount() {
            return Err(String::from_str("Insufficient balance to place order"));
        }
        let balance = match self.balance.subtract(&amount) {
            Ok(balance) => balance,
            Err(e) => {
                return Err(e);
            },
        };
        self.balance = balance;
        let order = Order::new(order_id, amount, description);
        self.orders.push(order.clone());
        assert(self@.orders =~= old(self)@.orders.push(order@));
        Ok(order)
    }

    /// The place of the first order with `order_id`, if there is one.
    fn position(&self, order_id: Id) -> (place: Option<usize>)
        ensures
            match place {
                Some(i) => i < self@.orders.len() && i == first_with_id(self@.orders, order_id),
                None => first_with_id(self@.orders, order_id) >= self@.orders.len(),
            },
    {
        let mut i: usize = 0;
        assert(self@.orders.skip(0) =~= self@.orders);
        while i < self.orders.len()
            invariant
                i <= self.orders.len(),
                self@.orders.len() == self.orders.len(),
                first_with_id(self@.orders, order_id) == i + first_with_id(
                    self@.orders.skip(i as int),
                    order_id,
                ),
            decreases self.orders.len() - i,
        {
            proof {
                let rest = self@.orders.skip(i as int);
                assert(rest.first() == self.orders[i as int]@);
                assert(rest.drop_first() =~= self@.orders.skip(i + 1));
            }
            if self.orders[i].id() == order_id {
                return Some(i);
            }
            i = i + 1;
        }
        proof {
            lemma_first_with_id(self@.orders.skip(i as int), order_id);
        }
        None
    }

    /// Tells whether `cancel_order` may be called with `order_id`.
    pub fn can_cancel(&self, order_id: Id) -> (ok: bool)
        ensures
            ok == (refundable(self@, order_id) ==> can_hold(
                self@.balance,
                self@.orders[first_with_id(self@.orders, order_id)].amount,
            )),
    {
        match self.position(order_id) {
            Some(place) => self.balance.can_add(self.orders[place].amount()),
            None => true,
        }
    }

    /// Takes the first order with `order_id` out of the orders and returns
    /// its amount to the balance. The order leaves even where its amount is
    /// in another currency and cannot be returned.
    pub fn cancel_order(&mut self, order_id: Id) -> (cancelled: Result<(), String>)
        requires
            refundable(old(self)@, order_id) ==> can_hold(
                old(self)@.balance,
                old(self)@.orders[first_with_id(old(self)@.orders, order_id)].amount,
            ),
        ensures
            final(self)@ == spec_cancel_order(old(self)@, order_id),
            match cancelled {
                Ok(_) => refundable(old(self)@, order_id),
                Err(e) => if first_with_id(old(self)@.orders, order_id) >= old(self)@.orders.len() {
                    e@ == "Order not found"@
                } else {
                    !refundable(old(self)@, order_id) && e@ == "Currency mismatch"@
                },
            },
    {
        match self.position(order_id) {
            Some(place) => {
                let order = self.orders.remove(place);
                assert(self@.orders =~= old(self)@.orders.remove(place as int));
                let balance = match self.balance.add(order.amount()) {
                    Ok(balance) => balance,
                    Err(e) => {
                        return Err(e);
                    },
                };
                self.balance = balance;
                Ok(())
            },
            None => Err(String::from_str("Order not found")),
        }
    }

    pub fn deposit(&mut self, amount: Money) -> (deposited: Result<(), String>)
        requires
            can_hold(old(self)@.balance, amount@),
        ensures
            match deposited {
                Ok(_) => {
                    &&& old(self)@.balance.currency == amount@.currency
                    &&& final(self)@ == (CustomerView {
                        balance: MoneyView {
                            amount: old(self)@.balance.amount + amount@.amount,
                            currency: amount@.currency,
                        },
                        ..old(self)@
                    })
                },
                Err(e) => {
                    &&& old(self)@.balance.currency != amount@.currency
                    &&& e@ == "Currency mismatch"@
                    &&& final(self)@ == old(self)@
                },
            },
    {
        let balance = match self.balance.add(&amount) {
            Ok(balance) => balance,
            Err(e) => {
                return Err(e);
            },
        };
        self.balance = balance;
        Ok(())
    }

    pub fn withdraw(&mut self, amount: Money) -> (withdrawn: Result<(), String>)
        ensures
            match withdrawn {
                Ok(_) => {
                    &&& old(self)@.balance.currency == amount@.currency
                    &&& old(self)@.balance.amount >= amount@.amount
                    &&& final(self)@ == (CustomerView {
                        balance: MoneyView {
                            amount: (old(self)@.balance.amount - amount@.amount) as nat,
                            currency: amount@.currency,
                        },
                        ..old(self)@
                    })
                },
                Err(e) => {
                    &&& final(self)@ == old(self)@
                    &&& if old(self)@.balance.currency != amount@.currency {
                        e@ == "Currency mismatch"@
                    } else {
                        old(self)@.balance.amount < amount@.amount && e@ == "Insufficient funds"@
                    }
                },
            },
    {
        let balance = match self.balance.subtract(&amount) {
            Ok(balance) => balance,
            Err(e) => {
                return Err(e);
            },
        };
        self.balance = balance;
        Ok(())
    }

    pub fn get_balance(&self) -> (balance: &Money)
        ensures
            balance@ == self@.balance,
    {
        &self.balance
    }

    pub fn get_orders(&self) -> (orders: &Vec<Order>)
        ensures
            orders@.map_values(|o: Order| o@) == self@.orders,
    {
        &self.orders
    }
}

} // verus!
