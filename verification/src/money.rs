use vstd::prelude::*;

verus! {

/// The abstract content of a [`Currency`]: its code and its number of minor-unit digits.
pub struct CurrencyView {
    pub code: Seq<char>,
    pub minor_units: u8,
}

/// The abstract content of a [`Money`] value: an exact count of minor units in a currency.
pub struct MoneyView {
    pub minor_units: i128,
    pub currency: CurrencyView,
}

/// A currency definition: a caller-chosen code together with the number of digits of its
/// minor unit. Currencies are open data, not a closed catalog.
#[derive(Debug, PartialEq, Eq, Hash)]
pub struct Currency {
    code: String,
    minor_units: u8,
}

impl View for Currency {
    type V = CurrencyView;

    closed spec fn view(&self) -> CurrencyView {
        CurrencyView { code: self.code@, minor_units: self.minor_units }
    }
}

impl Currency {
    /// Creates a currency definition from its code and its number of minor-unit digits.
    pub fn new(code: &str, minor_units: u8) -> (currency: Currency)
        ensures
            currency@ == (CurrencyView { code: code@, minor_units: minor_units }),
    {
        Currency { code: String::from_str(code), minor_units }
    }

    /// Returns the currency code.
    pub fn code(&self) -> (code: &str)
        ensures
            code@ == self@.code,
    {
        self.code.as_str()
    }

    /// Returns the number of digits of the currency's minor unit.
    pub fn minor_units(&self) -> (minor_units: u8)
        ensures
            minor_units == self@.minor_units,
    {
        self.minor_units
    }
}

/// An exact monetary value: a signed count of minor units of one currency.
#[derive(Debug, PartialEq, Eq, Hash)]
pub struct Money {
    minor_units: i128,
    currency: Currency,
}

impl View for Money {
    type V = MoneyView;

    closed spec fn view(&self) -> MoneyView {
        MoneyView { minor_units: self.minor_units, currency: self.currency@ }
    }
}

impl Money {
    /// Creates a monetary value from a count of minor units of `currency`.
    pub fn from_minor_units(minor_units: i128, currency: Currency) -> (money: Money)
        ensures
            money@ == (MoneyView { minor_units: minor_units, currency: currency@ }),
    {
        Money { minor_units, currency }
    }

    /// Returns the count of minor units.
    pub fn minor_units(&self) -> (minor_units: i128)
        ensures
            minor_units == self@.minor_units,
    {
        self.minor_units
    }

    /// Returns the currency of the value.
    pub fn currency(&self) -> (currency: &Currency)
        ensures
            currency@ == self@.currency,
    {
        &self.currency
    }
}

/// A monetary value that is strictly positive, as a payment amount must be.
#[derive(Debug, PartialEq, Eq, Hash)]
pub struct PaymentAmount {
    money: Money,
}

impl View for PaymentAmount {
    type V = MoneyView;

    closed spec fn view(&self) -> MoneyView {
        self.money@
    }
}

impl PaymentAmount {
    #[verifier::type_invariant]
    closed spec fn is_positive(self) -> bool {
        self.money@.minor_units > 0
    }

    /// Accepts `money` as a payment amount when it is strictly positive.
    pub fn new(money: Money) -> (amount: Option<PaymentAmount>)
        ensures
            amount is Some <==> money@.minor_units > 0,
            amount matches Some(accepted) ==> accepted@ == money@,
    {
        if money.minor_units() > 0 {
            Some(PaymentAmount { money })
        } else {
            None
        }
    }

    /// Returns the wrapped monetary value, which is strictly positive.
    pub fn money(&self) -> (money: &Money)
        ensures
            money@ == self@,
            money@.minor_units > 0,
    {
        proof {
            use_type_invariant(self);
        }
        &self.money
    }
}

impl Clone for Currency {
    fn clone(&self) -> (copy: Self)
        ensures
            copy@ == self@,
    {
        Currency { code: self.code.clone(), minor_units: self.minor_units }
    }
}

impl Clone for Money {
    fn clone(&self) -> (copy: Self)
        ensures
            copy@ == self@,
    {
        Money { minor_units: self.minor_units, currency: self.currency.clone() }
    }
}

impl Clone for PaymentAmount {
    fn clone(&self) -> (copy: Self)
        ensures
            copy@ == self@,
    {
        proof {
            use_type_invariant(self);
        }
        PaymentAmount { money: self.money.clone() }
    }
}

} // verus!
