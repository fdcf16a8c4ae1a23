use vstd::prelude::*;

verus! {

/// A sample struct with a greeting prefix.
#[derive(Debug)]
pub struct HelloStruct {
    pub init: String,
}

impl HelloStruct {
    /// `Hello Static <string>`.
    pub fn hello_static(string: &str) -> (r: String)
        ensures
            r@ == "Hello Static "@ + string@,
    {
        crate::naming::join2("Hello Static ", string)
    }

    /// `Hello Method. Init(<init>): <string>`.
    pub fn hello_method(&self, string: &str) -> (r: String)
        ensures
            r@ == "Hello Method. Init("@ + self.init@ + "): "@ + string@,
    {
        let mut r = String::from_str("Hello Method. Init(");
        r.append(self.init.as_str());
        r.append("): ");
        r.append(string);
        r
    }
}

/// A named wallet.
#[derive(Debug)]
pub struct Wallet {
    wallet_name: String,
}

impl Wallet {
    pub closed spec fn name(&self) -> Seq<char> {
        self.wallet_name@
    }

    pub fn new(wallet_name: &str) -> (r: Wallet)
        ensures
            r.name() == wallet_name@,
    {
        Wallet { wallet_name: String::from_str(wallet_name) }
    }

    /// A transaction builder on this wallet, with the doubling coin selection from zero and the
    /// flag off.
    pub fn create_tx(&self) -> (r: TxBuilder<'_, DoubleCS>)
        ensures
            r.wallet == self,
            !r.flag,
            r.cs.0 == 0,
    {
        TxBuilder::new(self, DoubleCS(0))
    }
}

/// A coin selection algorithm: picks a value from an amount.
pub trait CoinSelectionAlgorithm {
    /// Can the algorithm work on `val` without overflow?
    spec fn can_select(&self, val: u32) -> bool;

    /// What the algorithm picks for `val`.
    spec fn selection(&self, val: u32) -> int;

    fn do_something(&self, val: u32) -> (r: u32)
        requires
            self.can_select(val),
        ensures
            r == self.selection(val),
    ;
}

/// Picks its base plus twice the amount.
#[derive(Debug)]
pub struct DoubleCS(pub u32);

impl DoubleCS {
    pub fn new(init: u32) -> (r: DoubleCS)
        ensures
            r.0 == init,
    {
        DoubleCS(init)
    }
}

impl CoinSelectionAlgorithm for DoubleCS {
    open spec fn can_select(&self, val: u32) -> bool {
        self.0 + val * 2 <= u32::MAX
    }

    open spec fn selection(&self, val: u32) -> int {
        self.0 + val * 2
    }

    fn do_something(&self, val: u32) -> (r: u32) {
        self.0 + val * 2
    }
}

/// Picks its base plus three times the amount.
#[derive(Debug)]
pub struct TripleCS(pub u32);

impl TripleCS {
    pub fn new(init: u32) -> (r: TripleCS)
        ensures
            r.0 == init,
    {
        TripleCS(init)
    }
}

impl CoinSelectionAlgorithm for TripleCS {
    open spec fn can_select(&self, val: u32) -> bool {
        self.0 + val * 3 <= u32::MAX
    }

    open spec fn selection(&self, val: u32) -> int {
        self.0 + val * 3
    }

    fn do_something(&self, val: u32) -> (r: u32) {
        self.0 + val * 3
    }
}

/// Builds a transaction on a wallet with a coin selection algorithm.
#[derive(Debug)]
pub struct TxBuilder<'w, C: CoinSelectionAlgorithm> {
    pub wallet: &'w Wallet,
    pub flag: bool,
    pub cs: C,
}

impl<'w, C: CoinSelectionAlgorithm> TxBuilder<'w, C> {
    pub fn new(wallet: &'w Wallet, cs: C) -> (r: TxBuilder<'w, C>)
        ensures
            r.wallet == wallet,
            r.cs == cs,
            !r.flag,
    {
        TxBuilder { wallet, cs, flag: false }
    }

    /// Turns the flag on and lends the builder back for chaining: the builder ends as the
    /// returned reference leaves it, flagged unless changed through it.
    pub fn enable_flag(&mut self) -> (r: &mut Self)
        ensures
            r.flag,
            r.wallet == old(self).wallet,
            r.cs == old(self).cs,
            *final(self) == *final(r),
    {
        self.flag = true;
        self
    }

    /// Turns the flag off and lends the builder back for chaining.
    pub fn disable_flag(&mut self) -> (r: &mut Self)
        ensures
            !r.flag,
            r.wallet == old(self).wallet,
            r.cs == old(self).cs,
            *final(self) == *final(r),
    {
        self.flag = false;
        self
    }

    /// The same builder with another coin selection algorithm.
    pub fn coin_selection<N: CoinSelectionAlgorithm>(self, cs: N) -> (r: TxBuilder<'w, N>)
        ensures
            r.wallet == self.wallet,
            r.flag == self.flag,
            r.cs == cs,
    {
        TxBuilder { wallet: self.wallet, flag: self.flag, cs }
    }

    /// What the coin selection picks for an amount of five.
    pub fn finish(self) -> (r: u32)
        requires
            self.cs.can_select(5),
        ensures
            r == self.cs.selection(5),
    {
        self.cs.do_something(5)
    }

    pub fn get_wallet_name(&self) -> (r: String)
        ensures
            r@ == self.wallet.name(),
    {
        self.wallet.wallet_name.clone()
    }

    /// The same builder with its coin selection algorithm converted by `f`.
    pub fn convert_internal_cs<N: CoinSelectionAlgorithm, F: Fn(C) -> N>(self, f: F) -> (r: TxBuilder<'w, N>)
        requires
            f.requires((self.cs,)),
        ensures
            r.wallet == self.wallet,
            r.flag == self.flag,
            f.ensures((self.cs,), r.cs),
    {
        let cs = f(self.cs);
        TxBuilder { wallet: self.wallet, flag: self.flag, cs }
    }

    /// The coin selection algorithm, to change in place.
    pub fn mut_cs(&mut self) -> (r: &mut C)
        ensures
            *r == old(self).cs,
            final(self).cs == *final(r),
            final(self).wallet == old(self).wallet,
            final(self).flag == old(self).flag,
    {
        &mut self.cs
    }
}

} // verus!
