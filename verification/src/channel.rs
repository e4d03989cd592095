//! Binance market-data channel names.

use vstd::prelude::*;

verus! {

/// The suffix naming a Binance market-data channel.
#[derive(Copy, Clone, Hash, Debug)]
pub struct BinanceChannel(pub &'static str);

impl View for BinanceChannel {
    type V = Seq<char>;

    open spec fn view(&self) -> Seq<char> {
        self.0@
    }
}

impl BinanceChannel {
    /// The real-time trades channel.
    pub fn trades() -> (r: BinanceChannel)
        ensures
            r@ == "@trade"@,
    {
        BinanceChannel("@trade")
    }

    /// The top-of-book channel.
    pub fn order_book_l1() -> (r: BinanceChannel)
        ensures
            r@ == "@bookTicker"@,
    {
        BinanceChannel("@bookTicker")
    }

    /// The liquidation-orders channel.
    pub fn liquidations() -> (r: BinanceChannel)
        ensures
            r@ == "@forceOrder"@,
    {
        BinanceChannel("@forceOrder")
    }

    /// The channel suffix.
    pub fn as_str(&self) -> (r: &'static str)
        ensures
            r@ == self@,
    {
        self.0
    }
}

} // verus!
