//! Decoding an element identity from one of its two spellings: a text, which
//! is the canonical symbol or the decimal atomic number, or a number, which
//! is the atomic number.
use vstd::prelude::*;

use crate::decimal::{
    decimal_text, is_digit, lemma_decimal_text_injective, lemma_decimal_text_shape,
    parse_small_decimal,
};
use crate::element_symbol::{identity_with_number, is_atomic_number, spelled, ElementSymbol};
use crate::error::SymbolError;

verus! {

/// The input of a decode: exactly one of the two supported shapes.
#[derive(Clone, Copy, Debug)]
pub enum DecodeInput<'a> {
    Text(&'a str),
    Number(u64),
}

impl ElementSymbol {
    /// Whether `t` spells the identity: its canonical symbol, or the decimal
    /// spelling of its atomic number.
    pub open spec fn has_text(self, t: Seq<char>) -> bool {
        t == self.symbol_text() || t == decimal_text(self.number())
    }
}

/// `r` is what decoding the text `t` must give: the identity that `t`
/// spells, or, where no identity has that spelling, the text error carrying
/// `t`.
pub open spec fn text_decoded(t: Seq<char>, r: Result<ElementSymbol, SymbolError>) -> bool {
    match r {
        Ok(e) => e.has_text(t),
        Err(err) => {
            &&& err matches SymbolError::InvalidSymbolText(m) && m@ == t
            &&& forall|e: ElementSymbol| !#[trigger] e.has_text(t)
        },
    }
}

/// `r` is what decoding the number `n` must give: the identity with atomic
/// number `n`, or, where `n` is no atomic number, the number error carrying
/// `n`.
pub open spec fn number_decoded(n: u64, r: Result<ElementSymbol, SymbolError>) -> bool {
    match r {
        Ok(e) => e.number() == n,
        Err(err) => err == SymbolError::InvalidSymbolNumber(n) && !is_atomic_number(n as int),
    }
}

/// `r` is what decoding `input` must give.
pub open spec fn decoded(input: DecodeInput, r: Result<ElementSymbol, SymbolError>) -> bool {
    match input {
        DecodeInput::Text(s) => text_decoded(s@, r),
        DecodeInput::Number(n) => number_decoded(n, r),
    }
}

/// The result of decoding the number `n`, as a function of `n`: the identity
/// whose atomic number is `n`, or else the number error carrying `n`.
pub open spec fn number_result(n: u64) -> Result<ElementSymbol, SymbolError> {
    if is_atomic_number(n as int) {
        Ok(identity_with_number(n as int))
    } else {
        Err(SymbolError::InvalidSymbolNumber(n))
    }
}

/// The identity whose canonical symbol is `s`, if there is one.
fn symbol_of_text(s: &str) -> (r: Option<ElementSymbol>)
    ensures
        match r {
            Some(e) => e.symbol_text() == s@,
            None => forall|e: ElementSymbol| #[trigger] e.symbol_text() != s@,
        },
{
    let len = s.unicode_len();
    if len == 1 || len == 2 {
        let c0 = s.get_char(0);
        let c1 = if len == 2 {
            Some(s.get_char(1))
        } else {
            None
        };
        proof {
            assert(spelled(c0, c1) =~= s@);
        }
        ElementSymbol::from_symbol_chars(c0, c1)
    } else {
        proof {
            assert forall|e: ElementSymbol| #[trigger] e.symbol_text() != s@ by {
                e.lemma_tables();
            }
        }
        None
    }
}

/// Decodes the text `s`: a canonical symbol, matched in its exact case, or
/// the decimal spelling of an atomic number.
pub fn decode_text(s: &str) -> (r: Result<ElementSymbol, SymbolError>)
    ensures
        text_decoded(s@, r),
{
    if let Some(e) = symbol_of_text(s) {
        return Ok(e);
    }
    match parse_small_decimal(s) {
        Some(v) => {
            if let Some(e) = ElementSymbol::from_atomic_number(v) {
                Ok(e)
            } else {
                proof {
                    assert forall|e: ElementSymbol| !#[trigger] e.has_text(s@) by {
                        if decimal_text(e.number()) == s@ {
                            lemma_decimal_text_injective(e.number(), v as nat);
                            e.lemma_tables();
                        }
                    }
                }
                Err(SymbolError::InvalidSymbolText(s.to_owned()))
            }
        },
        None => {
            proof {
                assert forall|e: ElementSymbol| !#[trigger] e.has_text(s@) by {
                    e.lemma_tables();
                    assert(e.number() < 1000);
                    assert(decimal_text(e.number()) != s@);
                }
            }
            Err(SymbolError::InvalidSymbolText(s.to_owned()))
        },
    }
}

/// Decodes the number `n` as an atomic number.
pub fn decode_number(n: u64) -> (r: Result<ElementSymbol, SymbolError>)
    ensures
        number_decoded(n, r),
        r == number_result(n),
{
    match ElementSymbol::from_atomic_number(n) {
        Some(e) => {
            proof {
                let x = choose|x: ElementSymbol| #[trigger] x.number() == n;
                e.lemma_tables();
                x.lemma_number_injective(e);
            }
            Ok(e)
        },
        None => Err(SymbolError::InvalidSymbolNumber(n)),
    }
}

/// Decodes `input` along the path of its shape.
pub fn decode(input: DecodeInput) -> (r: Result<ElementSymbol, SymbolError>)
    ensures
        decoded(input, r),
{
    match input {
        DecodeInput::Text(s) => decode_text(s),
        DecodeInput::Number(n) => decode_number(n),
    }
}

/// A decoder that holds one input, text or number, until it is decoded.
#[derive(Debug)]
pub struct ElementSymbolDeserializer<'de> {
    pub input: DecodeInput<'de>,
}

impl<'de> ElementSymbolDeserializer<'de> {
    /// A decoder of the text `s`.
    pub fn from_str(s: &'de str) -> (r: Self)
        ensures
            r.input == DecodeInput::Text(s),
    {
        ElementSymbolDeserializer { input: DecodeInput::Text(s) }
    }

    /// A decoder of the number `n`.
    pub fn from_u64(n: u64) -> (r: Self)
        ensures
            r.input == DecodeInput::Number(n),
    {
        ElementSymbolDeserializer { input: DecodeInput::Number(n) }
    }

    /// Decodes the held input.
    pub fn deserialize(&self) -> (r: Result<ElementSymbol, SymbolError>)
        ensures
            decoded(self.input, r),
    {
        decode(self.input)
    }
}

impl core::str::FromStr for ElementSymbol {
    type Err = SymbolError;

    /// Decodes the text `s`, as `decode_text` does.
    fn from_str(s: &str) -> (r: Result<Self, Self::Err>)
        ensures
            text_decoded(s@, r),
    {
        ElementSymbolDeserializer::from_str(s).deserialize()
    }
}

impl TryFrom<u64> for ElementSymbol {
    type Error = SymbolError;

    fn try_from(value: u64) -> (r: Result<Self, Self::Error>) {
        decode_number(value)
    }
}

impl vstd::std_specs::convert::TryFromSpecImpl<u64> for ElementSymbol {
    open spec fn obeys_try_from_spec() -> bool {
        true
    }

    open spec fn try_from_spec(v: u64) -> Result<Self, Self::Error> {
        number_result(v)
    }
}

impl TryFrom<u32> for ElementSymbol {
    type Error = SymbolError;

    fn try_from(value: u32) -> (r: Result<Self, Self::Error>) {
        decode_number(value as u64)
    }
}

impl vstd::std_specs::convert::TryFromSpecImpl<u32> for ElementSymbol {
    open spec fn obeys_try_from_spec() -> bool {
        true
    }

    open spec fn try_from_spec(v: u32) -> Result<Self, Self::Error> {
        number_result(v as u64)
    }
}

impl TryFrom<u16> for ElementSymbol {
    type Error = SymbolError;

    fn try_from(value: u16) -> (r: Result<Self, Self::Error>) {
        decode_number(value as u64)
    }
}

impl vstd::std_specs::convert::TryFromSpecImpl<u16> for ElementSymbol {
    open spec fn obeys_try_from_spec() -> bool {
        true
    }

    open spec fn try_from_spec(v: u16) -> Result<Self, Self::Error> {
        number_result(v as u64)
    }
}

impl TryFrom<u8> for ElementSymbol {
    type Error = SymbolError;

    fn try_from(value: u8) -> (r: Result<Self, Self::Error>) {
        decode_number(value as u64)
    }
}

impl vstd::std_specs::convert::TryFromSpecImpl<u8> for ElementSymbol {
    open spec fn obeys_try_from_spec() -> bool {
        true
    }

    open spec fn try_from_spec(v: u8) -> Result<Self, Self::Error> {
        number_result(v as u64)
    }
}

/// At most one identity has a given spelling, so a decoded text names its
/// identity without ambiguity.
pub proof fn lemma_text_names_one(t: Seq<char>, a: ElementSymbol, b: ElementSymbol)
    requires
        a.has_text(t),
        b.has_text(t),
    ensures
        a == b,
{
    a.lemma_tables();
    b.lemma_tables();
    lemma_decimal_text_shape(a.number());
    lemma_decimal_text_shape(b.number());
    if t == a.symbol_text() && t == b.symbol_text() {
        a.lemma_symbol_text_injective(b);
    } else if t == decimal_text(a.number()) && t == decimal_text(b.number()) {
        lemma_decimal_text_injective(a.number(), b.number());
        a.lemma_number_injective(b);
    } else {
        assert(is_digit(t[0]));
    }
}

/// The canonical symbol of every identity decodes to that identity, whose
/// atomic number is then the one of the symbol.
pub proof fn lemma_symbol_decodes(e: ElementSymbol)
    ensures
        forall|x: ElementSymbol| #[trigger] x.has_text(e.symbol_text()) <==> x == e,
{
    assert forall|x: ElementSymbol| #[trigger] x.has_text(e.symbol_text()) <==> x == e by {
        if x.has_text(e.symbol_text()) {
            lemma_text_names_one(e.symbol_text(), x, e);
        }
    }
}

/// The decimal spelling of an atomic number decodes, as text, to the
/// identity that the number decodes to.
pub proof fn lemma_decimal_alias(n: u64)
    requires
        is_atomic_number(n as int),
    ensures
        forall|x: ElementSymbol| #[trigger] x.has_text(decimal_text(n as nat)) <==> x.number() == n,
{
    assert forall|x: ElementSymbol| #[trigger] x.has_text(decimal_text(n as nat)) <==> x.number() == n by {
        if x.has_text(decimal_text(n as nat)) {
            x.lemma_tables();
            lemma_decimal_text_shape(n as nat);
            if decimal_text(n as nat) == x.symbol_text() {
                assert(is_digit(decimal_text(n as nat)[0]));
            } else {
                lemma_decimal_text_injective(x.number(), n as nat);
            }
        }
    }
}

/// Decoding a canonical symbol and writing the identity back out gives the
/// symbol again.
pub proof fn lemma_symbol_round_trip(t: Seq<char>, x: ElementSymbol)
    requires
        exists|e: ElementSymbol| #[trigger] e.symbol_text() == t,
        x.has_text(t),
    ensures
        x.symbol_text() == t,
{
    let e = choose|e: ElementSymbol| #[trigger] e.symbol_text() == t;
    lemma_text_names_one(t, x, e);
}

} // verus!
