use vstd::prelude::*;

verus! {

/// Which side of the target price fires the alert.
#[derive(Clone, Copy, PartialEq, Eq, Structural, Debug)]
pub enum AlertCondition {
    Above,
    Below,
}

/// A price alert. The target price is in integer cents. `triggered` is
/// sticky: evaluation only ever sets it, it is cleared only by deleting
/// the alert.
pub struct Alert {
    pub symbol: String,
    pub condition: AlertCondition,
    pub price_cents: u64,
    pub triggered: bool,
}

/// Spec-level image of an alert: the symbol as a character sequence.
pub struct AlertV {
    pub symbol: Seq<char>,
    pub condition: AlertCondition,
    pub price_cents: u64,
    pub triggered: bool,
}

impl View for Alert {
    type V = AlertV;

    open spec fn view(&self) -> AlertV {
        AlertV {
            symbol: self.symbol@,
            condition: self.condition,
            price_cents: self.price_cents,
            triggered: self.triggered,
        }
    }
}

impl Clone for Alert {
    fn clone(&self) -> (r: Self)
        ensures
            r@ == self@,
    {
        Alert {
            symbol: self.symbol.clone(),
            condition: self.condition,
            price_cents: self.price_cents,
            triggered: self.triggered,
        }
    }
}

/// The views of a vector of alerts, in order.
pub open spec fn alerts_view(s: Seq<Alert>) -> Seq<AlertV> {
    s.map_values(|a: Alert| a@)
}

/// Whether a market price satisfies the alert's condition: strictly above
/// the target for `Above`, strictly below it for `Below`.
pub open spec fn condition_holds(a: AlertV, current_price_cents: u64) -> bool {
    match a.condition {
        AlertCondition::Above => current_price_cents > a.price_cents,
        AlertCondition::Below => current_price_cents < a.price_cents,
    }
}

/// One evaluation of an alert against an optionally known market price.
/// The triggered flag is sticky: it is set when a price is known and the
/// condition holds, and it is never cleared.
pub open spec fn checked_alert(a: AlertV, price: Option<u64>) -> AlertV {
    AlertV {
        triggered: a.triggered || (match price {
            Some(p) => condition_holds(a, p),
            None => false,
        }),
        ..a
    }
}

/// Alert triggering is monotonic: once an alert has triggered, no later
/// evaluation, at any price or with no price known at all, clears it.
pub proof fn lemma_trigger_monotonic(a: AlertV, price: Option<u64>)
    ensures
        a.triggered ==> checked_alert(a, price).triggered,
{
}

/// Element-wise copy of the alerts; the views of the copies match the
/// originals.
pub fn clone_alerts(v: &Vec<Alert>) -> (r: Vec<Alert>)
    ensures
        alerts_view(r@) == alerts_view(v@),
{
    let mut r: Vec<Alert> = Vec::new();
    let mut i: usize = 0;
    while i < v.len()
        invariant
            i <= v@.len(),
            r@.len() == i,
            forall|j: int| 0 <= j < i ==> r@[j]@ == v@[j]@,
        decreases v@.len() - i,
    {
        r.push(v[i].clone());
        i = i + 1;
    }
    proof {
        assert(alerts_view(r@) =~= alerts_view(v@));
    }
    r
}

impl Alert {
    /// A fresh, untriggered alert.
    pub fn new(symbol: String, condition: AlertCondition, price_cents: u64) -> (r: Self)
        ensures
            r@.symbol == symbol@,
            r@.condition == condition,
            r@.price_cents == price_cents,
            !r@.triggered,
    {
        Alert { symbol, condition, price_cents, triggered: false }
    }

    /// Whether the given market price satisfies this alert's condition.
    pub fn is_triggered(&self, current_price_cents: u64) -> (r: bool)
        ensures
            r == condition_holds(self@, current_price_cents),
    {
        match self.condition {
            AlertCondition::Above => current_price_cents > self.price_cents,
            AlertCondition::Below => current_price_cents < self.price_cents,
        }
    }
}

} // verus!
