//! Gateio market identifiers.

use vstd::prelude::*;

use crate::model::{ExpiryDate, InstrV, Instrument, InstrumentKind, OptionKind};
use crate::text::{
    ascii_string_from_bytes, bytes_to_chars, lemma_padded_digits_ascii, spec_decimal_chars,
    spec_padded_digits, to_ascii_uppercase, upper_chars, u64_string,
};

verus! {

/// An expiry formatted the way the venue's API writes dates: four year
/// digits, two month digits, two day digits.
pub open spec fn expiry_chars(e: ExpiryDate) -> Seq<char> {
    bytes_to_chars(
        spec_padded_digits(e.year as nat, 4) + spec_padded_digits(e.month as nat, 2)
            + spec_padded_digits(e.day as nat, 2),
    )
}

/// Format an expiry date as the venue's API expects, e.g. the last day of a
/// year as its four-digit year, then "12", then "31".
pub fn format_expiry(e: ExpiryDate) -> (r: String)
    ensures
        r@ == expiry_chars(e),
{
    let mut out: Vec<u8> = Vec::new();
    crate::text::push_padded_digits(e.year as u64, 4, &mut out);
    crate::text::push_padded_digits(e.month as u64, 2, &mut out);
    crate::text::push_padded_digits(e.day as u64, 2, &mut out);
    proof {
        lemma_padded_digits_ascii(e.year as nat, 4);
        lemma_padded_digits_ascii(e.month as nat, 2);
        lemma_padded_digits_ascii(e.day as nat, 2);
        assert(out@ =~= spec_padded_digits(e.year as nat, 4) + spec_padded_digits(
            e.month as nat,
            2,
        ) + spec_padded_digits(e.day as nat, 2));
    }
    ascii_string_from_bytes(out)
}

/// The market string the venue subscribes with, before upper-casing: spot
/// and perpetual markets join base and quote; futures append the quarterly
/// expiry; options append expiry, strike and call-or-put.
pub open spec fn gateio_market_raw(i: InstrV) -> Seq<char> {
    match i.kind {
        InstrumentKind::Spot => i.base + "_"@ + i.quote,
        InstrumentKind::Perpetual => i.base + "_"@ + i.quote,
        InstrumentKind::Future(f) => i.base + "_"@ + i.quote + "_QUARTERLY_"@ + expiry_chars(
            f.expiry,
        ),
        InstrumentKind::OptionContract(o) => i.base + "_"@ + i.quote + "-"@ + expiry_chars(
            o.expiry,
        ) + "-"@ + spec_decimal_chars(o.strike as nat) + "-"@ + (match o.kind {
            OptionKind::Call => "C"@,
            OptionKind::Put => "P"@,
        }),
        InstrumentKind::Erc20 => Seq::empty(),
    }
}

/// The market string, upper-cased when it is ASCII.
pub open spec fn gateio_market_chars(i: InstrV) -> Seq<char> {
    if vstd::utf8::is_ascii_chars(gateio_market_raw(i)) {
        upper_chars(gateio_market_raw(i))
    } else {
        gateio_market_raw(i)
    }
}

/// The market identifier a subscription translates to on this venue.
#[derive(Clone, Debug)]
pub struct GateioMarket(pub String);

impl View for GateioMarket {
    type V = Seq<char>;

    open spec fn view(&self) -> Seq<char> {
        self.0@
    }
}

impl GateioMarket {
    /// Build the market identifier for an instrument. The venue lists no
    /// on-chain token markets, so that kind is excluded.
    pub fn new(instrument: &Instrument) -> (r: GateioMarket)
        requires
            !(instrument@.kind is Erc20),
        ensures
            r@ == gateio_market_chars(instrument@),
    {
        let mut s = String::new();
        s.append(instrument.base.0.as_str());
        s.append("_");
        s.append(instrument.quote.0.as_str());
        match instrument.kind {
            InstrumentKind::Spot => {},
            InstrumentKind::Perpetual => {},
            InstrumentKind::Future(f) => {
                s.append("_QUARTERLY_");
                let expiry = format_expiry(f.expiry);
                s.append(expiry.as_str());
            },
            InstrumentKind::OptionContract(o) => {
                let mut opt = String::new();
                opt.append("-");
                let expiry = format_expiry(o.expiry);
                opt.append(expiry.as_str());
                opt.append("-");
                let strike = u64_string(o.strike);
                opt.append(strike.as_str());
                match o.kind {
                    OptionKind::Call => opt.append("-C"),
                    OptionKind::Put => opt.append("-P"),
                }
                s.append(opt.as_str());
                proof {
                    assert(s@ =~= gateio_market_raw(instrument@)) by {
                        reveal_strlit("-");
                        reveal_strlit("-C");
                        reveal_strlit("-P");
                        reveal_strlit("C");
                        reveal_strlit("P");
                    }
                }
            },
            InstrumentKind::Erc20 => {},
        }
        proof {
            assert(s@ == gateio_market_raw(instrument@));
        }
        GateioMarket(to_ascii_uppercase(s.as_str()))
    }
}

} // verus!
