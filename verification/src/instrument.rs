//! Instrument specifications: units/lots conversion and notional value.
use crate::error::Error;
use crate::fixed::{div_raw, fits, fx_div, fx_mul, mul_raw, Fixed, SCALE};
use crate::types::{str_to_uppercase, upper_case, Lots, Money, Price, Quantity, Symbol};
use vstd::prelude::*;

verus! {

/// Specification of one trading instrument.
#[derive(Debug)]
pub struct InstrumentSpec {
    pub symbol: Symbol,
    /// Units per 1.0 lot.
    pub contract_size: Fixed,
    /// Quote digits.
    pub digits: u8,
    /// Minimum price movement.
    pub pip_size: Fixed,
}

impl Clone for InstrumentSpec {
    fn clone(&self) -> (r: InstrumentSpec)
        ensures
            r == *self,
    {
        InstrumentSpec {
            symbol: self.symbol.clone(),
            contract_size: self.contract_size,
            digits: self.digits,
            pip_size: self.pip_size,
        }
    }
}

/// Notional (raw) of `lots` at `price`: `lots * contract_size * price`.
pub open spec fn notional_of(contract_size: int, lots: int, price: int) -> int {
    fx_mul(fx_mul(lots, contract_size), price)
}

impl InstrumentSpec {
    /// FX spec: 100,000 units per lot, 5 digits, 0.0001 pip.
    pub fn fx(symbol: &str) -> (r: InstrumentSpec)
        ensures
            r.symbol.0@ == upper_case(symbol@),
            r.contract_size.0 == 100_000 * SCALE,
            r.digits == 5,
            r.pip_size.0 == 10_000,
    {
        InstrumentSpec {
            symbol: Symbol::new(symbol),
            contract_size: Fixed(10_000_000_000_000),
            digits: 5,
            pip_size: Fixed(10_000),
        }
    }

    /// JPY-quote FX spec: 100,000 units per lot, 3 digits, 0.01 pip.
    pub fn fx_jpy(symbol: &str) -> (r: InstrumentSpec)
        ensures
            r.symbol.0@ == upper_case(symbol@),
            r.contract_size.0 == 100_000 * SCALE,
            r.digits == 3,
            r.pip_size.0 == 1_000_000,
    {
        InstrumentSpec {
            symbol: Symbol::new(symbol),
            contract_size: Fixed(10_000_000_000_000),
            digits: 3,
            pip_size: Fixed(1_000_000),
        }
    }

    /// CFD/index spec: 1 unit per lot, 2 digits, 0.01 tick.
    pub fn cfd(symbol: &str) -> (r: InstrumentSpec)
        ensures
            r.symbol.0@ == upper_case(symbol@),
            r.contract_size.0 == SCALE,
            r.digits == 2,
            r.pip_size.0 == 1_000_000,
    {
        InstrumentSpec {
            symbol: Symbol::new(symbol),
            contract_size: Fixed(SCALE),
            digits: 2,
            pip_size: Fixed(1_000_000),
        }
    }

    /// The fallback spec: 1 unit = 1 lot, 5 digits, 0.0001 pip.
    pub fn default_spec() -> (r: InstrumentSpec)
        ensures
            r.symbol.0@ == upper_case("<default>"@),
            r.contract_size.0 == SCALE,
            r.digits == 5,
            r.pip_size.0 == 10_000,
    {
        InstrumentSpec {
            symbol: Symbol::new("<default>"),
            contract_size: Fixed(SCALE),
            digits: 5,
            pip_size: Fixed(10_000),
        }
    }

    /// Units to lots: `units / contract_size`.
    pub fn units_to_lots(&self, units: Quantity) -> (r: Lots)
        requires
            self.contract_size.0 != 0,
            fits(fx_div(units.0 as int, self.contract_size.0 as int)),
        ensures
            r.0 == fx_div(units.0 as int, self.contract_size.0 as int),
    {
        Lots(div_raw(units.0, self.contract_size.0))
    }

    /// Lots to units: `lots * contract_size`.
    pub fn lots_to_units(&self, lots: Lots) -> (r: Quantity)
        requires
            fits(fx_mul(lots.0 as int, self.contract_size.0 as int)),
        ensures
            r.0 == fx_mul(lots.0 as int, self.contract_size.0 as int),
    {
        Quantity(mul_raw(lots.0, self.contract_size.0))
    }

    /// Notional in quote currency: `lots * contract_size * price`.
    pub fn notional(&self, lots: Lots, price: Price) -> (r: Money)
        requires
            fits(fx_mul(lots.0 as int, self.contract_size.0 as int)),
            fits(notional_of(self.contract_size.0 as int, lots.0 as int, price.0 as int)),
        ensures
            r.0 == notional_of(self.contract_size.0 as int, lots.0 as int, price.0 as int),
    {
        let units = mul_raw(lots.0, self.contract_size.0);
        Money(mul_raw(units, price.0))
    }
}

/// The entry of the registry held under `key`, if any.
pub open spec fn lookup(entries: Seq<(String, InstrumentSpec)>, key: Seq<char>) -> Option<
    InstrumentSpec,
>
    decreases entries.len(),
{
    if entries.len() == 0 {
        None
    } else if entries.last().0@ == key {
        Some(entries.last().1)
    } else {
        lookup(entries.drop_last(), key)
    }
}

/// Registry of instrument specs keyed by upper-case symbol; unknown
/// symbols get [`InstrumentSpec::default_spec`].
#[derive(Debug)]
pub struct InstrumentRegistry {
    specs: Vec<(String, InstrumentSpec)>,
}

impl InstrumentRegistry {
    /// The registered entries (upper-case key, spec).
    pub closed spec fn entries(&self) -> Seq<(String, InstrumentSpec)> {
        self.specs@
    }

    /// The spec registered under `key`.
    pub open spec fn spec_for(&self, key: Seq<char>) -> Option<InstrumentSpec> {
        lookup(self.entries(), key)
    }

    /// An empty registry.
    pub fn new() -> (r: InstrumentRegistry)
        ensures
            forall|k: Seq<char>| r.spec_for(k) is None,
    {
        InstrumentRegistry { specs: Vec::new() }
    }

    /// Registers (or replaces) the spec under its upper-cased symbol;
    /// every other symbol keeps its spec.
    pub fn register(&mut self, spec: InstrumentSpec)
        ensures
            final(self).spec_for(upper_case(spec.symbol.0@)) == Some(spec),
            forall|k: Seq<char>|
                k != upper_case(spec.symbol.0@) ==> final(self).spec_for(k) == old(self).spec_for(k),
    {
        let key = str_to_uppercase(spec.symbol.0.as_str());
        self.specs.push((key, spec));
        proof {
            assert(self.specs@.drop_last() == old(self).specs@);
        }
    }

    /// The spec registered for the symbol, or the default spec.
    pub fn get(&self, symbol: &Symbol) -> (r: InstrumentSpec)
        ensures
            self.spec_for(symbol.0@) matches Some(s) ==> r == s,
            self.spec_for(symbol.0@) is None ==> r.contract_size.0 == SCALE && r.digits == 5
                && r.pip_size.0 == 10_000 && r.symbol.0@ == upper_case("<default>"@),
    {
        let mut i = self.specs.len();
        proof {
            assert(self.specs@.take(self.specs@.len() as int) == self.specs@);
        }
        while i > 0
            invariant
                i <= self.specs@.len(),
                lookup(self.specs@, symbol.0@) == lookup(self.specs@.take(i as int), symbol.0@),
            decreases i,
        {
            let ghost t = self.specs@.take(i as int);
            assert(t.drop_last() == self.specs@.take(i - 1));
            assert(t.last() == self.specs@[i - 1]);
            if self.specs[i - 1].0 == symbol.0 {
                return self.specs[i - 1].1.clone();
            }
            i = i - 1;
        }
        InstrumentSpec::default_spec()
    }

    /// A spec must have a positive contract size and a non-negative pip.
    pub fn validate(spec: &InstrumentSpec) -> (r: Result<(), Error>)
        ensures
            r is Ok <==> (spec.contract_size.0 > 0 && spec.pip_size.0 >= 0),
            r is Err ==> r->Err_0 is InvalidConfig && r->Err_0->InvalidConfig_0@ == (if spec.contract_size.0 <= 0 {
                "instrument contract_size must be positive"@
            } else {
                "instrument pip_size cannot be negative"@
            }),
    {
        if spec.contract_size.0 <= 0 {
            return Err(Error::invalid_config("instrument contract_size must be positive"));
        }
        if spec.pip_size.0 < 0 {
            return Err(Error::invalid_config("instrument pip_size cannot be negative"));
        }
        Ok(())
    }
}

impl Default for InstrumentSpec {
    /// The fallback spec: [`InstrumentSpec::default_spec`].
    fn default() -> (r: InstrumentSpec)
        ensures
            r.symbol.0@ == upper_case("<default>"@),
            r.contract_size.0 == SCALE,
            r.digits == 5,
            r.pip_size.0 == 10_000,
    {
        InstrumentSpec::default_spec()
    }
}

} // verus!
