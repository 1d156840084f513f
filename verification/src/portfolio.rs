use vstd::prelude::*;

verus! {

/// One holding in the portfolio.
///
/// Money is carried in integer cents. The position's total cost basis is
/// stored directly instead of a rounded average price, so the bookkeeping
/// identity "average purchase price times shares equals total cost paid"
/// holds exactly: the average price is the exact ratio
/// `cost_cents / shares` and never drifts as further lots are merged in.
pub struct PortfolioItem {
    pub symbol: String,
    pub shares: u64,
    pub cost_cents: u64,
    pub current_price: Option<u64>,
    pub purchase_date: Option<String>,
    pub notes: Option<String>,
}

/// Spec-level image of a holding: strings as character sequences,
/// everything else as plain values.
pub struct PortfolioItemV {
    pub symbol: Seq<char>,
    pub shares: u64,
    pub cost_cents: u64,
    pub current_price: Option<u64>,
    pub purchase_date: Option<Seq<char>>,
    pub notes: Option<Seq<char>>,
}

impl View for PortfolioItem {
    type V = PortfolioItemV;

    open spec fn view(&self) -> PortfolioItemV {
        PortfolioItemV {
            symbol: self.symbol@,
            shares: self.shares,
            cost_cents: self.cost_cents,
            current_price: self.current_price,
            purchase_date: match self.purchase_date {
                Some(d) => Some(d@),
                None => None,
            },
            notes: match self.notes {
                Some(n) => Some(n@),
                None => None,
            },
        }
    }
}

impl Clone for PortfolioItem {
    fn clone(&self) -> (r: Self)
        ensures
            r@ == self@,
    {
        PortfolioItem {
            symbol: self.symbol.clone(),
            shares: self.shares,
            cost_cents: self.cost_cents,
            current_price: self.current_price,
            purchase_date: match &self.purchase_date {
                Some(d) => Some(d.clone()),
                None => None,
            },
            notes: match &self.notes {
                Some(n) => Some(n.clone()),
                None => None,
            },
        }
    }
}

/// The views of a vector of holdings, in order.
pub open spec fn items_view(s: Seq<PortfolioItem>) -> Seq<PortfolioItemV> {
    s.map_values(|it: PortfolioItem| it@)
}

/// Market value of one holding, in cents; zero while no current price is
/// known (such holdings do not count toward the portfolio's market value).
pub open spec fn item_value(it: PortfolioItemV) -> int {
    match it.current_price {
        Some(p) => p * it.shares,
        None => 0,
    }
}

/// Total market value of a sequence of holdings, in cents.
pub open spec fn total_value(s: Seq<PortfolioItemV>) -> int
    decreases s.len(),
{
    if s.len() == 0 {
        0
    } else {
        total_value(s.drop_last()) + item_value(s.last())
    }
}

/// Total cost basis of a sequence of holdings, in cents.
pub open spec fn total_cost(s: Seq<PortfolioItemV>) -> int
    decreases s.len(),
{
    if s.len() == 0 {
        0
    } else {
        total_cost(s.drop_last()) + s.last().cost_cents
    }
}

pub proof fn lemma_item_value_nonneg(it: PortfolioItemV)
    ensures
        item_value(it) >= 0,
{
    match it.current_price {
        Some(p) => {
            assert(p * it.shares >= 0) by (nonlinear_arith);
        },
        None => {},
    }
}

pub proof fn lemma_total_value_nonneg(s: Seq<PortfolioItemV>)
    ensures
        total_value(s) >= 0,
    decreases s.len(),
{
    if s.len() > 0 {
        lemma_total_value_nonneg(s.drop_last());
        lemma_item_value_nonneg(s.last());
    }
}

pub proof fn lemma_total_cost_nonneg(s: Seq<PortfolioItemV>)
    ensures
        total_cost(s) >= 0,
    decreases s.len(),
{
    if s.len() > 0 {
        lemma_total_cost_nonneg(s.drop_last());
    }
}

pub proof fn lemma_total_value_take_succ(s: Seq<PortfolioItemV>, i: int)
    requires
        0 <= i < s.len(),
    ensures
        total_value(s.take(i + 1)) == total_value(s.take(i)) + item_value(s[i]),
{
    assert(s.take(i + 1).drop_last() =~= s.take(i));
    assert(s.take(i + 1).last() == s[i]);
}

pub proof fn lemma_total_cost_take_succ(s: Seq<PortfolioItemV>, i: int)
    requires
        0 <= i < s.len(),
    ensures
        total_cost(s.take(i + 1)) == total_cost(s.take(i)) + s[i].cost_cents,
{
    assert(s.take(i + 1).drop_last() =~= s.take(i));
    assert(s.take(i + 1).last() == s[i]);
}

/// A prefix sum of market values never exceeds the whole sum.
pub proof fn lemma_total_value_take_le(s: Seq<PortfolioItemV>, i: int)
    requires
        0 <= i <= s.len(),
    ensures
        total_value(s.take(i)) <= total_value(s),
    decreases s.len() - i,
{
    if i == s.len() {
        assert(s.take(i) =~= s);
    } else {
        lemma_total_value_take_succ(s, i);
        lemma_item_value_nonneg(s[i]);
        lemma_total_value_take_le(s, i + 1);
    }
}

/// A prefix sum of cost bases never exceeds the whole sum.
pub proof fn lemma_total_cost_take_le(s: Seq<PortfolioItemV>, i: int)
    requires
        0 <= i <= s.len(),
    ensures
        total_cost(s.take(i)) <= total_cost(s),
    decreases s.len() - i,
{
    if i == s.len() {
        assert(s.take(i) =~= s);
    } else {
        lemma_total_cost_take_succ(s, i);
        lemma_total_cost_take_le(s, i + 1);
    }
}

impl PortfolioItem {
    /// A fresh holding bought as one lot: `shares` shares at
    /// `price_cents` per share.
    pub fn new(symbol: String, shares: u64, price_cents: u64) -> (r: Self)
        requires
            shares * price_cents <= u64::MAX,
        ensures
            r@.symbol == symbol@,
            r@.shares == shares,
            r@.cost_cents == shares * price_cents,
            r@.current_price is None,
            r@.purchase_date is None,
            r@.notes is None,
    {
        let cost: u64 = shares * price_cents;
        PortfolioItem {
            symbol,
            shares,
            cost_cents: cost,
            current_price: None,
            purchase_date: None,
            notes: None,
        }
    }

    /// Merge one more lot of the same symbol into this holding: share
    /// counts add up and the cost basis grows by exactly what the new lot
    /// cost, which keeps the weighted-average purchase price exact.
    pub fn add_lot(&mut self, shares: u64, price_cents: u64)
        requires
            old(self).shares + shares <= u64::MAX,
            old(self).cost_cents + shares * price_cents <= u64::MAX,
        ensures
            final(self)@.shares == old(self)@.shares + shares,
            final(self)@.cost_cents == old(self)@.cost_cents + shares * price_cents,
            final(self)@.symbol == old(self)@.symbol,
            final(self)@.current_price == old(self)@.current_price,
            final(self)@.purchase_date == old(self)@.purchase_date,
            final(self)@.notes == old(self)@.notes,
    {
        let lot_cost: u64 = shares * price_cents;
        self.shares = self.shares + shares;
        self.cost_cents = self.cost_cents + lot_cost;
    }

    /// The weighted-average purchase price in cents, rounded toward zero.
    pub fn purchase_price(&self) -> (r: u64)
        requires
            self.shares > 0,
        ensures
            r == self@.cost_cents as int / self@.shares as int,
    {
        self.cost_cents / self.shares
    }

    /// Market value in cents, when a current price is known.
    pub fn market_value(&self) -> (r: Option<u64>)
        requires
            self@.current_price matches Some(p) ==> p * self@.shares <= u64::MAX,
        ensures
            match self@.current_price {
                Some(p) => r == Some((p * self@.shares) as u64),
                None => r is None,
            },
    {
        match self.current_price {
            Some(p) => Some(p * self.shares),
            None => None,
        }
    }

    /// Total amount paid for the holding, in cents.
    pub fn cost_basis(&self) -> (r: u64)
        ensures
            r == self@.cost_cents,
    {
        self.cost_cents
    }

    /// Unrealized gain or loss in cents, when a current price is known.
    pub fn profit_loss(&self) -> (r: Option<i64>)
        requires
            self@.current_price matches Some(p) ==> p * self@.shares <= i64::MAX,
            self@.cost_cents <= i64::MAX,
        ensures
            match self@.current_price {
                Some(p) => r == Some((p * self@.shares - self@.cost_cents) as i64),
                None => r is None,
            },
    {
        match self.current_price {
            Some(p) => {
                let value: u64 = p * self.shares;
                Some(value as i64 - self.cost_cents as i64)
            },
            None => None,
        }
    }

    /// Unrealized gain or loss as basis points of the cost basis (one
    /// hundredth of a percent), rounded toward zero; `None` while no
    /// current price is known, and zero for a holding with a zero cost
    /// basis, which has no meaningful percentage.
    pub fn profit_loss_percent(&self) -> (r: Option<i64>)
        requires
            self@.current_price matches Some(p) ==> p * self@.shares <= i64::MAX,
            self@.cost_cents <= i64::MAX,
            self@.current_price matches Some(p) ==> (p * self@.shares - self@.cost_cents)
                * 10000 <= i64::MAX,
            self@.current_price matches Some(p) ==> (self@.cost_cents - p * self@.shares)
                * 10000 <= i64::MAX,
        ensures
            match self@.current_price {
                Some(p) => {
                    if self@.cost_cents == 0 {
                        r == Some(0i64)
                    } else {
                        r == Some(
                            div_toward_zero(
                                (p * self@.shares - self@.cost_cents) * 10000,
                                self@.cost_cents as int,
                            ) as i64,
                        )
                    }
                },
                None => r is None,
            },
    {
        match self.profit_loss() {
            Some(pl) => {
                if self.cost_cents == 0 {
                    Some(0)
                } else if pl >= 0 {
                    let bp: u64 = (pl as u64) * 10000 / self.cost_cents;
                    proof {
                        lemma_div_shrinks(pl * 10000, self.cost_cents as int);
                    }
                    Some(bp as i64)
                } else {
                    let mag: u64 = (-pl) as u64;
                    let bp: u64 = mag * 10000 / self.cost_cents;
                    proof {
                        lemma_div_shrinks((-pl) * 10000, self.cost_cents as int);
                    }
                    Some(-(bp as i64))
                }
            },
            None => None,
        }
    }
}

/// Quotient rounded toward zero, as machine signed division rounds.
pub open spec fn div_toward_zero(a: int, b: int) -> int {
    if a >= 0 {
        a / b
    } else {
        -((-a) / b)
    }
}

/// Dividing a bounded nonnegative value by a positive divisor keeps it
/// bounded.
pub proof fn lemma_div_shrinks(a: int, b: int)
    requires
        a >= 0,
        b > 0,
        a <= i64::MAX,
    ensures
        0 <= a / b <= i64::MAX,
{
    assert(0 <= a / b && a / b <= a) by (nonlinear_arith)
        requires
            a >= 0,
            b > 0,
    ;
}

/// Index of the first holding of a symbol, scanning from the front.
pub open spec fn find_symbol(s: Seq<PortfolioItemV>, sym: Seq<char>) -> Option<int>
    decreases s.len(),
{
    if s.len() == 0 {
        None
    } else if s[0].symbol == sym {
        Some(0int)
    } else {
        match find_symbol(s.subrange(1, s.len() as int), sym) {
            Some(i) => Some(i + 1),
            None => None,
        }
    }
}

/// What `find_symbol` returns: the first index whose holding carries the
/// symbol, or nothing when no holding does.
pub proof fn lemma_find_symbol(s: Seq<PortfolioItemV>, sym: Seq<char>)
    ensures
        match find_symbol(s, sym) {
            Some(i) => 0 <= i < s.len() && s[i].symbol == sym && (forall|j: int|
                0 <= j < i ==> s[j].symbol != sym),
            None => forall|j: int| 0 <= j < s.len() ==> s[j].symbol != sym,
        },
    decreases s.len(),
{
    if s.len() > 0 && s[0].symbol != sym {
        let t = s.subrange(1, s.len() as int);
        lemma_find_symbol(t, sym);
        assert(forall|j: int| 1 <= j < s.len() ==> s[j] == t[j - 1]);
    }
}

/// First index in the vector holding the given symbol, if any.
pub fn find_item_index(items: &Vec<PortfolioItem>, sym: &String) -> (r: Option<usize>)
    ensures
        match r {
            Some(i) => i < items@.len() && find_symbol(items_view(items@), sym@) == Some(
                i as int,
            ),
            None => find_symbol(items_view(items@), sym@) is None,
        },
{
    let ghost v = items_view(items@);
    let mut i: usize = 0;
    while i < items.len()
        invariant
            i <= items@.len(),
            v == items_view(items@),
            forall|j: int| 0 <= j < i ==> v[j].symbol != sym@,
        decreases items@.len() - i,
    {
        if items[i].symbol == *sym {
            proof {
                assert(v[i as int] == items@[i as int]@);
                assert(v[i as int].symbol == sym@);
                lemma_find_symbol(v, sym@);
            }
            return Some(i);
        }
        i = i + 1;
    }
    proof {
        lemma_find_symbol(v, sym@);
    }
    None
}

/// Element-wise copy of the holdings; the views of the copies match the
/// originals.
pub fn clone_items(v: &Vec<PortfolioItem>) -> (r: Vec<PortfolioItem>)
    ensures
        items_view(r@) == items_view(v@),
{
    let mut r: Vec<PortfolioItem> = Vec::new();
    let mut i: usize = 0;
    while i < v.len()
        invariant
            i <= v@.len(),
            r@.len() == i,
            forall|j: int| 0 <= j < i ==> r@[j]@ == v@[j]@,
        decreases v@.len() - i,
    {
        r.push(v[i].clone());
        i = i + 1;
    }
    proof {
        assert(items_view(r@) =~= items_view(v@));
    }
    r
}

/// Replacing one holding changes the total cost basis by exactly the
/// difference at that position.
pub proof fn lemma_total_cost_update(s: Seq<PortfolioItemV>, i: int, x: PortfolioItemV)
    requires
        0 <= i < s.len(),
    ensures
        total_cost(s.update(i, x)) == total_cost(s) - s[i].cost_cents + x.cost_cents,
    decreases s.len(),
{
    let t = s.update(i, x);
    if i == s.len() - 1 {
        assert(t.drop_last() =~= s.drop_last());
        assert(t.last() == x);
    } else {
        assert(t.drop_last() =~= s.drop_last().update(i, x));
        assert(t.last() == s.last());
        lemma_total_cost_update(s.drop_last(), i, x);
    }
}

/// A buy order: a number of shares and the price per share in cents.
pub type Lot = (u64, u64);

/// Shares and cost basis of a position after folding a sequence of buys
/// of one symbol, starting from an empty position: each buy adds its
/// share count and adds exactly what it cost.
pub open spec fn position_after(lots: Seq<Lot>) -> (int, int)
    decreases lots.len(),
{
    if lots.len() == 0 {
        (0int, 0int)
    } else {
        let prev = position_after(lots.drop_last());
        let last = lots.last();
        (prev.0 + last.0, prev.1 + last.0 * last.1)
    }
}

/// Total number of shares bought over a sequence of lots.
pub open spec fn lots_shares(lots: Seq<Lot>) -> int
    decreases lots.len(),
{
    if lots.len() == 0 {
        0int
    } else {
        lots_shares(lots.drop_last()) + lots.last().0
    }
}

/// Total amount paid over a sequence of lots, in cents.
pub open spec fn lots_cost(lots: Seq<Lot>) -> int
    decreases lots.len(),
{
    if lots.len() == 0 {
        0int
    } else {
        lots_cost(lots.drop_last()) + lots.last().0 * lots.last().1
    }
}

/// The cost-basis law: however many buys of one symbol are merged into a
/// position, the position's share count is the sum of the bought shares
/// and its cost basis is the sum of `shares_i * price_i` over the buys.
/// Since the average purchase price is the exact ratio of cost basis to
/// shares, this is precisely "total shares times average purchase price
/// equals the total paid".
pub proof fn lemma_position_cost_is_lot_sum(lots: Seq<Lot>)
    ensures
        position_after(lots).0 == lots_shares(lots),
        position_after(lots).1 == lots_cost(lots),
    decreases lots.len(),
{
    if lots.len() > 0 {
        lemma_position_cost_is_lot_sum(lots.drop_last());
    }
}

} // verus!
