//! The closed set of element identities, each with its atomic number and its
//! canonical symbol, and the family that an atomic number falls in.
use vstd::prelude::*;

use core::cmp::Ordering;
use vstd::set_lib::{lemma_int_range, lemma_map_size, set_int_range};
use vstd::std_specs::cmp::PartialOrdSpec;

use crate::decimal::is_digit;

verus! {

/// An element symbol of the catalog.
///
/// The variants stand in order of atomic number. The atomic number of an
/// identity is what `atomic_number` returns (an `as` cast gives the position
/// in this list instead): 0 for the first, `H`, and 2 for the second, `He`;
/// from there each one has the number of the one before it plus one, up to
/// `Lr` with 103. No identity has the number 1.
#[derive(Clone, Copy, Debug, PartialEq, Eq, Structural, Hash, Ord)]
pub enum ElementSymbol {
    H,
    He,
    Li,
    Be,
    B,
    C,
    N,
    O,
    F,
    Ne,
    Na,
    Mg,
    Al,
    Si,
    P,
    S,
    Cl,
    Ar,
    K,
    Ca,
    Sc,
    Ti,
    V,
    Cr,
    Mn,
    Fe,
    Co,
    Ni,
    Cu,
    Zn,
    Ga,
    Ge,
    As,
    Se,
    Br,
    Kr,
    Rb,
    Sr,
    Y,
    Zr,
    Nb,
    Mo,
    Tc,
    Ru,
    Rh,
    Pd,
    Ag,
    Cd,
    In,
    Sn,
    Sb,
    Te,
    I,
    Xe,
    Cs,
    Ba,
    La,
    Ce,
    Pr,
    Nd,
    Pm,
    Sm,
    Eu,
    Gd,
    Tb,
    Dy,
    Ho,
    Er,
    Tm,
    Yb,
    Lu,
    Hf,
    Ta,
    W,
    Re,
    Os,
    Ir,
    Pt,
    Au,
    Hg,
    Tl,
    Pb,
    Bi,
    Po,
    At,
    Rn,
    Fr,
    Ra,
    Ac,
    Th,
    Pa,
    U,
    Np,
    Pu,
    Am,
    Cm,
    Bk,
    Cf,
    Es,
    Fm,
    Md,
    No,
    Lr,
}

/// Whether `n` is the atomic number of some identity: 0, or 2 to 103.
pub open spec fn is_atomic_number(n: int) -> bool {
    n == 0 || 2 <= n <= 103
}

/// The comparison of two integers.
pub open spec fn compare_numbers(a: int, b: int) -> Ordering {
    if a < b {
        Ordering::Less
    } else if a == b {
        Ordering::Equal
    } else {
        Ordering::Greater
    }
}

/// The symbol spelled by a first character and an optional second one.
pub open spec fn spelled(c0: char, c1: Option<char>) -> Seq<char> {
    match c1 {
        Some(c) => seq![c0, c],
        None => seq![c0],
    }
}

impl ElementSymbol {
    /// The atomic number of the identity.
    pub open spec fn number(self) -> nat {
        match self {
            Self::H => 0,
            Self::He => 2,
            Self::Li => 3,
            Self::Be => 4,
            Self::B => 5,
            Self::C => 6,
            Self::N => 7,
            Self::O => 8,
            Self::F => 9,
            Self::Ne => 10,
            Self::Na => 11,
            Self::Mg => 12,
            Self::Al => 13,
            Self::Si => 14,
            Self::P => 15,
            Self::S => 16,
            Self::Cl => 17,
            Self::Ar => 18,
            Self::K => 19,
            Self::Ca => 20,
            Self::Sc => 21,
            Self::Ti => 22,
            Self::V => 23,
            Self::Cr => 24,
            Self::Mn => 25,
            Self::Fe => 26,
            Self::Co => 27,
            Self::Ni => 28,
            Self::Cu => 29,
            Self::Zn => 30,
            Self::Ga => 31,
            Self::Ge => 32,
            Self::As => 33,
            Self::Se => 34,
            Self::Br => 35,
            Self::Kr => 36,
            Self::Rb => 37,
            Self::Sr => 38,
            Self::Y => 39,
            Self::Zr => 40,
            Self::Nb => 41,
            Self::Mo => 42,
            Self::Tc => 43,
            Self::Ru => 44,
            Self::Rh => 45,
            Self::Pd => 46,
            Self::Ag => 47,
            Self::Cd => 48,
            Self::In => 49,
            Self::Sn => 50,
            Self::Sb => 51,
            Self::Te => 52,
            Self::I => 53,
            Self::Xe => 54,
            Self::Cs => 55,
            Self::Ba => 56,
            Self::La => 57,
            Self::Ce => 58,
            Self::Pr => 59,
            Self::Nd => 60,
            Self::Pm => 61,
            Self::Sm => 62,
            Self::Eu => 63,
            Self::Gd => 64,
            Self::Tb => 65,
            Self::Dy => 66,
            Self::Ho => 67,
            Self::Er => 68,
            Self::Tm => 69,
            Self::Yb => 70,
            Self::Lu => 71,
            Self::Hf => 72,
            Self::Ta => 73,
            Self::W => 74,
            Self::Re => 75,
            Self::Os => 76,
            Self::Ir => 77,
            Self::Pt => 78,
            Self::Au => 79,
            Self::Hg => 80,
            Self::Tl => 81,
            Self::Pb => 82,
            Self::Bi => 83,
            Self::Po => 84,
            Self::At => 85,
            Self::Rn => 86,
            Self::Fr => 87,
            Self::Ra => 88,
            Self::Ac => 89,
            Self::Th => 90,
            Self::Pa => 91,
            Self::U => 92,
            Self::Np => 93,
            Self::Pu => 94,
            Self::Am => 95,
            Self::Cm => 96,
            Self::Bk => 97,
            Self::Cf => 98,
            Self::Es => 99,
            Self::Fm => 100,
            Self::Md => 101,
            Self::No => 102,
            Self::Lr => 103,
        }
    }

    /// The canonical symbol of the identity, in its exact case.
    pub open spec fn symbol_text(self) -> Seq<char> {
        match self {
            Self::H => seq!['H'],
            Self::He => seq!['H', 'e'],
            Self::Li => seq!['L', 'i'],
            Self::Be => seq!['B', 'e'],
            Self::B => seq!['B'],
            Self::C => seq!['C'],
            Self::N => seq!['N'],
            Self::O => seq!['O'],
            Self::F => seq!['F'],
            Self::Ne => seq!['N', 'e'],
            Self::Na => seq!['N', 'a'],
            Self::Mg => seq!['M', 'g'],
            Self::Al => seq!['A', 'l'],
            Self::Si => seq!['S', 'i'],
            Self::P => seq!['P'],
            Self::S => seq!['S'],
            Self::Cl => seq!['C', 'l'],
            Self::Ar => seq!['A', 'r'],
            Self::K => seq!['K'],
            Self::Ca => seq!['C', 'a'],
            Self::Sc => seq!['S', 'c'],
            Self::Ti => seq!['T', 'i'],
            Self::V => seq!['V'],
            Self::Cr => seq!['C', 'r'],
            Self::Mn => seq!['M', 'n'],
            Self::Fe => seq!['F', 'e'],
            Self::Co => seq!['C', 'o'],
            Self::Ni => seq!['N', 'i'],
            Self::Cu => seq!['C', 'u'],
            Self::Zn => seq!['Z', 'n'],
            Self::Ga => seq!['G', 'a'],
            Self::Ge => seq!['G', 'e'],
            Self::As => seq!['A', 's'],
            Self::Se => seq!['S', 'e'],
            Self::Br => seq!['B', 'r'],
            Self::Kr => seq!['K', 'r'],
            Self::Rb => seq!['R', 'b'],
            Self::Sr => seq!['S', 'r'],
            Self::Y => seq!['Y'],
            Self::Zr => seq!['Z', 'r'],
            Self::Nb => seq!['N', 'b'],
            Self::Mo => seq!['M', 'o'],
            Self::Tc => seq!['T', 'c'],
            Self::Ru => seq!['R', 'u'],
            Self::Rh => seq!['R', 'h'],
            Self::Pd => seq!['P', 'd'],
            Self::Ag => seq!['A', 'g'],
            Self::Cd => seq!['C', 'd'],
            Self::In => seq!['I', 'n'],
            Self::Sn => seq!['S', 'n'],
            Self::Sb => seq!['S', 'b'],
            Self::Te => seq!['T', 'e'],
            Self::I => seq!['I'],
            Self::Xe => seq!['X', 'e'],
            Self::Cs => seq!['C', 's'],
            Self::Ba => seq!['B', 'a'],
            Self::La => seq!['L', 'a'],
            Self::Ce => seq!['C', 'e'],
            Self::Pr => seq!['P', 'r'],
            Self::Nd => seq!['N', 'd'],
            Self::Pm => seq!['P', 'm'],
            Self::Sm => seq!['S', 'm'],
            Self::Eu => seq!['E', 'u'],
            Self::Gd => seq!['G', 'd'],
            Self::Tb => seq!['T', 'b'],
            Self::Dy => seq!['D', 'y'],
            Self::Ho => seq!['H', 'o'],
            Self::Er => seq!['E', 'r'],
            Self::Tm => seq!['T', 'm'],
            Self::Yb => seq!['Y', 'b'],
            Self::Lu => seq!['L', 'u'],
            Self::Hf => seq!['H', 'f'],
            Self::Ta => seq!['T', 'a'],
            Self::W => seq!['W'],
            Self::Re => seq!['R', 'e'],
            Self::Os => seq!['O', 's'],
            Self::Ir => seq!['I', 'r'],
            Self::Pt => seq!['P', 't'],
            Self::Au => seq!['A', 'u'],
            Self::Hg => seq!['H', 'g'],
            Self::Tl => seq!['T', 'l'],
            Self::Pb => seq!['P', 'b'],
            Self::Bi => seq!['B', 'i'],
            Self::Po => seq!['P', 'o'],
            Self::At => seq!['A', 't'],
            Self::Rn => seq!['R', 'n'],
            Self::Fr => seq!['F', 'r'],
            Self::Ra => seq!['R', 'a'],
            Self::Ac => seq!['A', 'c'],
            Self::Th => seq!['T', 'h'],
            Self::Pa => seq!['P', 'a'],
            Self::U => seq!['U'],
            Self::Np => seq!['N', 'p'],
            Self::Pu => seq!['P', 'u'],
            Self::Am => seq!['A', 'm'],
            Self::Cm => seq!['C', 'm'],
            Self::Bk => seq!['B', 'k'],
            Self::Cf => seq!['C', 'f'],
            Self::Es => seq!['E', 's'],
            Self::Fm => seq!['F', 'm'],
            Self::Md => seq!['M', 'd'],
            Self::No => seq!['N', 'o'],
            Self::Lr => seq!['L', 'r'],
        }
    }

    /// The identity with atomic number `n`, if there is one, written out as
    /// the inverse table of `number`; `lemma_tables` shows that it inverts
    /// it, which makes `number` one-to-one.
    pub open spec fn with_number(n: int) -> Option<Self> {
        if n == 0 {
            Some(Self::H)
        } else if n == 2 {
            Some(Self::He)
        } else if n == 3 {
            Some(Self::Li)
        } else if n == 4 {
            Some(Self::Be)
        } else if n == 5 {
            Some(Self::B)
        } else if n == 6 {
            Some(Self::C)
        } else if n == 7 {
            Some(Self::N)
        } else if n == 8 {
            Some(Self::O)
        } else if n == 9 {
            Some(Self::F)
        } else if n == 10 {
            Some(Self::Ne)
        } else if n == 11 {
            Some(Self::Na)
        } else if n == 12 {
            Some(Self::Mg)
        } else if n == 13 {
            Some(Self::Al)
        } else if n == 14 {
            Some(Self::Si)
        } else if n == 15 {
            Some(Self::P)
        } else if n == 16 {
            Some(Self::S)
        } else if n == 17 {
            Some(Self::Cl)
        } else if n == 18 {
            Some(Self::Ar)
        } else if n == 19 {
            Some(Self::K)
        } else if n == 20 {
            Some(Self::Ca)
        } else if n == 21 {
            Some(Self::Sc)
        } else if n == 22 {
            Some(Self::Ti)
        } else if n == 23 {
            Some(Self::V)
        } else if n == 24 {
            Some(Self::Cr)
        } else if n == 25 {
            Some(Self::Mn)
        } else if n == 26 {
            Some(Self::Fe)
        } else if n == 27 {
            Some(Self::Co)
        } else if n == 28 {
            Some(Self::Ni)
        } else if n == 29 {
            Some(Self::Cu)
        } else if n == 30 {
            Some(Self::Zn)
        } else if n == 31 {
            Some(Self::Ga)
        } else if n == 32 {
            Some(Self::Ge)
        } else if n == 33 {
            Some(Self::As)
        } else if n == 34 {
            Some(Self::Se)
        } else if n == 35 {
            Some(Self::Br)
        } else if n == 36 {
            Some(Self::Kr)
        } else if n == 37 {
            Some(Self::Rb)
        } else if n == 38 {
            Some(Self::Sr)
        } else if n == 39 {
            Some(Self::Y)
        } else if n == 40 {
            Some(Self::Zr)
        } else if n == 41 {
            Some(Self::Nb)
        } else if n == 42 {
            Some(Self::Mo)
        } else if n == 43 {
            Some(Self::Tc)
        } else if n == 44 {
            Some(Self::Ru)
        } else if n == 45 {
            Some(Self::Rh)
        } else if n == 46 {
            Some(Self::Pd)
        } else if n == 47 {
            Some(Self::Ag)
        } else if n == 48 {
            Some(Self::Cd)
        } else if n == 49 {
            Some(Self::In)
        } else if n == 50 {
            Some(Self::Sn)
        } else if n == 51 {
            Some(Self::Sb)
        } else if n == 52 {
            Some(Self::Te)
        } else if n == 53 {
            Some(Self::I)
        } else if n == 54 {
            Some(Self::Xe)
        } else if n == 55 {
            Some(Self::Cs)
        } else if n == 56 {
            Some(Self::Ba)
        } else if n == 57 {
            Some(Self::La)
        } else if n == 58 {
            Some(Self::Ce)
        } else if n == 59 {
            Some(Self::Pr)
        } else if n == 60 {
            Some(Self::Nd)
        } else if n == 61 {
            Some(Self::Pm)
        } else if n == 62 {
            Some(Self::Sm)
        } else if n == 63 {
            Some(Self::Eu)
        } else if n == 64 {
            Some(Self::Gd)
        } else if n == 65 {
            Some(Self::Tb)
        } else if n == 66 {
            Some(Self::Dy)
        } else if n == 67 {
            Some(Self::Ho)
        } else if n == 68 {
            Some(Self::Er)
        } else if n == 69 {
            Some(Self::Tm)
        } else if n == 70 {
            Some(Self::Yb)
        } else if n == 71 {
            Some(Self::Lu)
        } else if n == 72 {
            Some(Self::Hf)
        } else if n == 73 {
            Some(Self::Ta)
        } else if n == 74 {
            Some(Self::W)
        } else if n == 75 {
            Some(Self::Re)
        } else if n == 76 {
            Some(Self::Os)
        } else if n == 77 {
            Some(Self::Ir)
        } else if n == 78 {
            Some(Self::Pt)
        } else if n == 79 {
            Some(Self::Au)
        } else if n == 80 {
            Some(Self::Hg)
        } else if n == 81 {
            Some(Self::Tl)
        } else if n == 82 {
            Some(Self::Pb)
        } else if n == 83 {
            Some(Self::Bi)
        } else if n == 84 {
            Some(Self::Po)
        } else if n == 85 {
            Some(Self::At)
        } else if n == 86 {
            Some(Self::Rn)
        } else if n == 87 {
            Some(Self::Fr)
        } else if n == 88 {
            Some(Self::Ra)
        } else if n == 89 {
            Some(Self::Ac)
        } else if n == 90 {
            Some(Self::Th)
        } else if n == 91 {
            Some(Self::Pa)
        } else if n == 92 {
            Some(Self::U)
        } else if n == 93 {
            Some(Self::Np)
        } else if n == 94 {
            Some(Self::Pu)
        } else if n == 95 {
            Some(Self::Am)
        } else if n == 96 {
            Some(Self::Cm)
        } else if n == 97 {
            Some(Self::Bk)
        } else if n == 98 {
            Some(Self::Cf)
        } else if n == 99 {
            Some(Self::Es)
        } else if n == 100 {
            Some(Self::Fm)
        } else if n == 101 {
            Some(Self::Md)
        } else if n == 102 {
            Some(Self::No)
        } else if n == 103 {
            Some(Self::Lr)
        } else {
            None
        }
    }

    /// The identity whose symbol is spelled by `c0` and `c1`, if there is
    /// one, written out as the inverse table of `symbol_text`; `lemma_tables`
    /// shows that it inverts it, which makes `symbol_text` one-to-one.
    pub open spec fn with_symbol_chars(c0: char, c1: Option<char>) -> Option<Self> {
        match (c0, c1) {
            ('H', None) => Some(Self::H),
            ('H', Some('e')) => Some(Self::He),
            ('L', Some('i')) => Some(Self::Li),
            ('B', Some('e')) => Some(Self::Be),
            ('B', None) => Some(Self::B),
            ('C', None) => Some(Self::C),
            ('N', None) => Some(Self::N),
            ('O', None) => Some(Self::O),
            ('F', None) => Some(Self::F),
            ('N', Some('e')) => Some(Self::Ne),
            ('N', Some('a')) => Some(Self::Na),
            ('M', Some('g')) => Some(Self::Mg),
            ('A', Some('l')) => Some(Self::Al),
            ('S', Some('i')) => Some(Self::Si),
            ('P', None) => Some(Self::P),
            ('S', None) => Some(Self::S),
            ('C', Some('l')) => Some(Self::Cl),
            ('A', Some('r')) => Some(Self::Ar),
            ('K', None) => Some(Self::K),
            ('C', Some('a')) => Some(Self::Ca),
            ('S', Some('c')) => Some(Self::Sc),
            ('T', Some('i')) => Some(Self::Ti),
            ('V', None) => Some(Self::V),
            ('C', Some('r')) => Some(Self::Cr),
            ('M', Some('n')) => Some(Self::Mn),
            ('F', Some('e')) => Some(Self::Fe),
            ('C', Some('o')) => Some(Self::Co),
            ('N', Some('i')) => Some(Self::Ni),
            ('C', Some('u')) => Some(Self::Cu),
            ('Z', Some('n')) => Some(Self::Zn),
            ('G', Some('a')) => Some(Self::Ga),
            ('G', Some('e')) => Some(Self::Ge),
            ('A', Some('s')) => Some(Self::As),
            ('S', Some('e')) => Some(Self::Se),
            ('B', Some('r')) => Some(Self::Br),
            ('K', Some('r')) => Some(Self::Kr),
            ('R', Some('b')) => Some(Self::Rb),
            ('S', Some('r')) => Some(Self::Sr),
            ('Y', None) => Some(Self::Y),
            ('Z', Some('r')) => Some(Self::Zr),
            ('N', Some('b')) => Some(Self::Nb),
            ('M', Some('o')) => Some(Self::Mo),
            ('T', Some('c')) => Some(Self::Tc),
            ('R', Some('u')) => Some(Self::Ru),
            ('R', Some('h')) => Some(Self::Rh),
            ('P', Some('d')) => Some(Self::Pd),
            ('A', Some('g')) => Some(Self::Ag),
            ('C', Some('d')) => Some(Self::Cd),
            ('I', Some('n')) => Some(Self::In),
            ('S', Some('n')) => Some(Self::Sn),
            ('S', Some('b')) => Some(Self::Sb),
            ('T', Some('e')) => Some(Self::Te),
            ('I', None) => Some(Self::I),
            ('X', Some('e')) => Some(Self::Xe),
            ('C', Some('s')) => Some(Self::Cs),
            ('B', Some('a')) => Some(Self::Ba),
            ('L', Some('a')) => Some(Self::La),
            ('C', Some('e')) => Some(Self::Ce),
            ('P', Some('r')) => Some(Self::Pr),
            ('N', Some('d')) => Some(Self::Nd),
            ('P', Some('m')) => Some(Self::Pm),
            ('S', Some('m')) => Some(Self::Sm),
            ('E', Some('u')) => Some(Self::Eu),
            ('G', Some('d')) => Some(Self::Gd),
            ('T', Some('b')) => Some(Self::Tb),
            ('D', Some('y')) => Some(Self::Dy),
            ('H', Some('o')) => Some(Self::Ho),
            ('E', Some('r')) => Some(Self::Er),
            ('T', Some('m')) => Some(Self::Tm),
            ('Y', Some('b')) => Some(Self::Yb),
            ('L', Some('u')) => Some(Self::Lu),
            ('H', Some('f')) => Some(Self::Hf),
            ('T', Some('a')) => Some(Self::Ta),
            ('W', None) => Some(Self::W),
            ('R', Some('e')) => Some(Self::Re),
            ('O', Some('s')) => Some(Self::Os),
            ('I', Some('r')) => Some(Self::Ir),
            ('P', Some('t')) => Some(Self::Pt),
            ('A', Some('u')) => Some(Self::Au),
            ('H', Some('g')) => Some(Self::Hg),
            ('T', Some('l')) => Some(Self::Tl),
            ('P', Some('b')) => Some(Self::Pb),
            ('B', Some('i')) => Some(Self::Bi),
            ('P', Some('o')) => Some(Self::Po),
            ('A', Some('t')) => Some(Self::At),
            ('R', Some('n')) => Some(Self::Rn),
            ('F', Some('r')) => Some(Self::Fr),
            ('R', Some('a')) => Some(Self::Ra),
            ('A', Some('c')) => Some(Self::Ac),
            ('T', Some('h')) => Some(Self::Th),
            ('P', Some('a')) => Some(Self::Pa),
            ('U', None) => Some(Self::U),
            ('N', Some('p')) => Some(Self::Np),
            ('P', Some('u')) => Some(Self::Pu),
            ('A', Some('m')) => Some(Self::Am),
            ('C', Some('m')) => Some(Self::Cm),
            ('B', Some('k')) => Some(Self::Bk),
            ('C', Some('f')) => Some(Self::Cf),
            ('E', Some('s')) => Some(Self::Es),
            ('F', Some('m')) => Some(Self::Fm),
            ('M', Some('d')) => Some(Self::Md),
            ('N', Some('o')) => Some(Self::No),
            ('L', Some('r')) => Some(Self::Lr),
            _ => None,
        }
    }

    /// The identity whose canonical symbol is `t`, if there is one.
    pub open spec fn with_symbol_text(t: Seq<char>) -> Option<Self> {
        if t.len() == 1 {
            Self::with_symbol_chars(t[0], None)
        } else if t.len() == 2 {
            Self::with_symbol_chars(t[0], Some(t[1]))
        } else {
            None
        }
    }

    /// Each identity is found again from its atomic number and from its
    /// symbol, and its symbol is one or two characters, the first no digit.
    pub proof fn lemma_tables(self)
        ensures
            is_atomic_number(self.number() as int),
            Self::with_number(self.number() as int) == Some(self),
            Self::with_symbol_text(self.symbol_text()) == Some(self),
            1 <= self.symbol_text().len() <= 2,
            !is_digit(self.symbol_text()[0]),
    {
        match self {
            Self::H => {},
            Self::He => {},
            Self::Li => {},
            Self::Be => {},
            Self::B => {},
            Self::C => {},
            Self::N => {},
            Self::O => {},
            Self::F => {},
            Self::Ne => {},
            Self::Na => {},
            Self::Mg => {},
            Self::Al => {},
            Self::Si => {},
            Self::P => {},
            Self::S => {},
            Self::Cl => {},
            Self::Ar => {},
            Self::K => {},
            Self::Ca => {},
            Self::Sc => {},
            Self::Ti => {},
            Self::V => {},
            Self::Cr => {},
            Self::Mn => {},
            Self::Fe => {},
            Self::Co => {},
            Self::Ni => {},
            Self::Cu => {},
            Self::Zn => {},
            Self::Ga => {},
            Self::Ge => {},
            Self::As => {},
            Self::Se => {},
            Self::Br => {},
            Self::Kr => {},
            Self::Rb => {},
            Self::Sr => {},
            Self::Y => {},
            Self::Zr => {},
            Self::Nb => {},
            Self::Mo => {},
            Self::Tc => {},
            Self::Ru => {},
            Self::Rh => {},
            Self::Pd => {},
            Self::Ag => {},
            Self::Cd => {},
            Self::In => {},
            Self::Sn => {},
            Self::Sb => {},
            Self::Te => {},
            Self::I => {},
            Self::Xe => {},
            Self::Cs => {},
            Self::Ba => {},
            Self::La => {},
            Self::Ce => {},
            Self::Pr => {},
            Self::Nd => {},
            Self::Pm => {},
            Self::Sm => {},
            Self::Eu => {},
            Self::Gd => {},
            Self::Tb => {},
            Self::Dy => {},
            Self::Ho => {},
            Self::Er => {},
            Self::Tm => {},
            Self::Yb => {},
            Self::Lu => {},
            Self::Hf => {},
            Self::Ta => {},
            Self::W => {},
            Self::Re => {},
            Self::Os => {},
            Self::Ir => {},
            Self::Pt => {},
            Self::Au => {},
            Self::Hg => {},
            Self::Tl => {},
            Self::Pb => {},
            Self::Bi => {},
            Self::Po => {},
            Self::At => {},
            Self::Rn => {},
            Self::Fr => {},
            Self::Ra => {},
            Self::Ac => {},
            Self::Th => {},
            Self::Pa => {},
            Self::U => {},
            Self::Np => {},
            Self::Pu => {},
            Self::Am => {},
            Self::Cm => {},
            Self::Bk => {},
            Self::Cf => {},
            Self::Es => {},
            Self::Fm => {},
            Self::Md => {},
            Self::No => {},
            Self::Lr => {},
        }
    }

    /// Two identities with the same atomic number are the same.
    pub proof fn lemma_number_injective(self, other: Self)
        requires
            self.number() == other.number(),
        ensures
            self == other,
    {
        self.lemma_tables();
        other.lemma_tables();
    }

    /// Two identities with the same symbol are the same.
    pub proof fn lemma_symbol_text_injective(self, other: Self)
        requires
            self.symbol_text() == other.symbol_text(),
        ensures
            self == other,
    {
        self.lemma_tables();
        other.lemma_tables();
    }

    /// The atomic number of the identity.
    pub fn atomic_number(&self) -> (r: u8)
        ensures
            r as nat == self.number(),
    {
        match self {
            Self::H => 0,
            Self::He => 2,
            Self::Li => 3,
            Self::Be => 4,
            Self::B => 5,
            Self::C => 6,
            Self::N => 7,
            Self::O => 8,
            Self::F => 9,
            Self::Ne => 10,
            Self::Na => 11,
            Self::Mg => 12,
            Self::Al => 13,
            Self::Si => 14,
            Self::P => 15,
            Self::S => 16,
            Self::Cl => 17,
            Self::Ar => 18,
            Self::K => 19,
            Self::Ca => 20,
            Self::Sc => 21,
            Self::Ti => 22,
            Self::V => 23,
            Self::Cr => 24,
            Self::Mn => 25,
            Self::Fe => 26,
            Self::Co => 27,
            Self::Ni => 28,
            Self::Cu => 29,
            Self::Zn => 30,
            Self::Ga => 31,
            Self::Ge => 32,
            Self::As => 33,
            Self::Se => 34,
            Self::Br => 35,
            Self::Kr => 36,
            Self::Rb => 37,
            Self::Sr => 38,
            Self::Y => 39,
            Self::Zr => 40,
            Self::Nb => 41,
            Self::Mo => 42,
            Self::Tc => 43,
            Self::Ru => 44,
            Self::Rh => 45,
            Self::Pd => 46,
            Self::Ag => 47,
            Self::Cd => 48,
            Self::In => 49,
            Self::Sn => 50,
            Self::Sb => 51,
            Self::Te => 52,
            Self::I => 53,
            Self::Xe => 54,
            Self::Cs => 55,
            Self::Ba => 56,
            Self::La => 57,
            Self::Ce => 58,
            Self::Pr => 59,
            Self::Nd => 60,
            Self::Pm => 61,
            Self::Sm => 62,
            Self::Eu => 63,
            Self::Gd => 64,
            Self::Tb => 65,
            Self::Dy => 66,
            Self::Ho => 67,
            Self::Er => 68,
            Self::Tm => 69,
            Self::Yb => 70,
            Self::Lu => 71,
            Self::Hf => 72,
            Self::Ta => 73,
            Self::W => 74,
            Self::Re => 75,
            Self::Os => 76,
            Self::Ir => 77,
            Self::Pt => 78,
            Self::Au => 79,
            Self::Hg => 80,
            Self::Tl => 81,
            Self::Pb => 82,
            Self::Bi => 83,
            Self::Po => 84,
            Self::At => 85,
            Self::Rn => 86,
            Self::Fr => 87,
            Self::Ra => 88,
            Self::Ac => 89,
            Self::Th => 90,
            Self::Pa => 91,
            Self::U => 92,
            Self::Np => 93,
            Self::Pu => 94,
            Self::Am => 95,
            Self::Cm => 96,
            Self::Bk => 97,
            Self::Cf => 98,
            Self::Es => 99,
            Self::Fm => 100,
            Self::Md => 101,
            Self::No => 102,
            Self::Lr => 103,
        }
    }

    /// The canonical symbol of the identity.
    pub fn as_str(&self) -> (r: &'static str)
        ensures
            r@ == self.symbol_text(),
    {
        match self {
            Self::H => {
                proof { reveal_strlit("H"); }
                "H"
            },
            Self::He => {
                proof { reveal_strlit("He"); }
                "He"
            },
            Self::Li => {
                proof { reveal_strlit("Li"); }
                "Li"
            },
            Self::Be => {
                proof { reveal_strlit("Be"); }
                "Be"
            },
            Self::B => {
                proof { reveal_strlit("B"); }
                "B"
            },
            Self::C => {
                proof { reveal_strlit("C"); }
                "C"
            },
            Self::N => {
                proof { reveal_strlit("N"); }
                "N"
            },
            Self::O => {
                proof { reveal_strlit("O"); }
                "O"
            },
            Self::F => {
                proof { reveal_strlit("F"); }
                "F"
            },
            Self::Ne => {
                proof { reveal_strlit("Ne"); }
                "Ne"
            },
            Self::Na => {
                proof { reveal_strlit("Na"); }
                "Na"
            },
            Self::Mg => {
                proof { reveal_strlit("Mg"); }
                "Mg"
            },
            Self::Al => {
                proof { reveal_strlit("Al"); }
                "Al"
            },
            Self::Si => {
                proof { reveal_strlit("Si"); }
                "Si"
            },
            Self::P => {
                proof { reveal_strlit("P"); }
                "P"
            },
            Self::S => {
                proof { reveal_strlit("S"); }
                "S"
            },
            Self::Cl => {
                proof { reveal_strlit("Cl"); }
                "Cl"
            },
            Self::Ar => {
                proof { reveal_strlit("Ar"); }
                "Ar"
            },
            Self::K => {
                proof { reveal_strlit("K"); }
                "K"
            },
            Self::Ca => {
                proof { reveal_strlit("Ca"); }
                "Ca"
            },
            Self::Sc => {
                proof { reveal_strlit("Sc"); }
                "Sc"
            },
            Self::Ti => {
                proof { reveal_strlit("Ti"); }
                "Ti"
            },
            Self::V => {
                proof { reveal_strlit("V"); }
                "V"
            },
            Self::Cr => {
                proof { reveal_strlit("Cr"); }
                "Cr"
            },
            Self::Mn => {
                proof { reveal_strlit("Mn"); }
                "Mn"
            },
            Self::Fe => {
                proof { reveal_strlit("Fe"); }
                "Fe"
            },
            Self::Co => {
                proof { reveal_strlit("Co"); }
                "Co"
            },
            Self::Ni => {
                proof { reveal_strlit("Ni"); }
                "Ni"
            },
            Self::Cu => {
                proof { reveal_strlit("Cu"); }
                "Cu"
            },
            Self::Zn => {
                proof { reveal_strlit("Zn"); }
                "Zn"
            },
            Self::Ga => {
                proof { reveal_strlit("Ga"); }
                "Ga"
            },
            Self::Ge => {
                proof { reveal_strlit("Ge"); }
                "Ge"
            },
            Self::As => {
                proof { reveal_strlit("As"); }
                "As"
            },
            Self::Se => {
                proof { reveal_strlit("Se"); }
                "Se"
            },
            Self::Br => {
                proof { reveal_strlit("Br"); }
                "Br"
            },
            Self::Kr => {
                proof { reveal_strlit("Kr"); }
                "Kr"
            },
            Self::Rb => {
                proof { reveal_strlit("Rb"); }
                "Rb"
            },
            Self::Sr => {
                proof { reveal_strlit("Sr"); }
                "Sr"
            },
            Self::Y => {
                proof { reveal_strlit("Y"); }
                "Y"
            },
            Self::Zr => {
                proof { reveal_strlit("Zr"); }
                "Zr"
            },
            Self::Nb => {
                proof { reveal_strlit("Nb"); }
                "Nb"
            },
            Self::Mo => {
                proof { reveal_strlit("Mo"); }
                "Mo"
            },
            Self::Tc => {
                proof { reveal_strlit("Tc"); }
                "Tc"
            },
            Self::Ru => {
                proof { reveal_strlit("Ru"); }
                "Ru"
            },
            Self::Rh => {
                proof { reveal_strlit("Rh"); }
                "Rh"
            },
            Self::Pd => {
                proof { reveal_strlit("Pd"); }
                "Pd"
            },
            Self::Ag => {
                proof { reveal_strlit("Ag"); }
                "Ag"
            },
            Self::Cd => {
                proof { reveal_strlit("Cd"); }
                "Cd"
            },
            Self::In => {
                proof { reveal_strlit("In"); }
                "In"
            },
            Self::Sn => {
                proof { reveal_strlit("Sn"); }
                "Sn"
            },
            Self::Sb => {
                proof { reveal_strlit("Sb"); }
                "Sb"
            },
            Self::Te => {
                proof { reveal_strlit("Te"); }
                "Te"
            },
            Self::I => {
                proof { reveal_strlit("I"); }
                "I"
            },
            Self::Xe => {
                proof { reveal_strlit("Xe"); }
                "Xe"
            },
            Self::Cs => {
                proof { reveal_strlit("Cs"); }
                "Cs"
            },
            Self::Ba => {
                proof { reveal_strlit("Ba"); }
                "Ba"
            },
            Self::La => {
                proof { reveal_strlit("La"); }
                "La"
            },
            Self::Ce => {
                proof { reveal_strlit("Ce"); }
                "Ce"
            },
            Self::Pr => {
                proof { reveal_strlit("Pr"); }
                "Pr"
            },
            Self::Nd => {
                proof { reveal_strlit("Nd"); }
                "Nd"
            },
            Self::Pm => {
                proof { reveal_strlit("Pm"); }
                "Pm"
            },
            Self::Sm => {
                proof { reveal_strlit("Sm"); }
                "Sm"
            },
            Self::Eu => {
                proof { reveal_strlit("Eu"); }
                "Eu"
            },
            Self::Gd => {
                proof { reveal_strlit("Gd"); }
                "Gd"
            },
            Self::Tb => {
                proof { reveal_strlit("Tb"); }
                "Tb"
            },
            Self::Dy => {
                proof { reveal_strlit("Dy"); }
                "Dy"
            },
            Self::Ho => {
                proof { reveal_strlit("Ho"); }
                "Ho"
            },
            Self::Er => {
                proof { reveal_strlit("Er"); }
                "Er"
            },
            Self::Tm => {
                proof { reveal_strlit("Tm"); }
                "Tm"
            },
            Self::Yb => {
                proof { reveal_strlit("Yb"); }
                "Yb"
            },
            Self::Lu => {
                proof { reveal_strlit("Lu"); }
                "Lu"
            },
            Self::Hf => {
                proof { reveal_strlit("Hf"); }
                "Hf"
            },
            Self::Ta => {
                proof { reveal_strlit("Ta"); }
                "Ta"
            },
            Self::W => {
                proof { reveal_strlit("W"); }
                "W"
            },
            Self::Re => {
                proof { reveal_strlit("Re"); }
                "Re"
            },
            Self::Os => {
                proof { reveal_strlit("Os"); }
                "Os"
            },
            Self::Ir => {
                proof { reveal_strlit("Ir"); }
                "Ir"
            },
            Self::Pt => {
                proof { reveal_strlit("Pt"); }
                "Pt"
            },
            Self::Au => {
                proof { reveal_strlit("Au"); }
                "Au"
            },
            Self::Hg => {
                proof { reveal_strlit("Hg"); }
                "Hg"
            },
            Self::Tl => {
                proof { reveal_strlit("Tl"); }
                "Tl"
            },
            Self::Pb => {
                proof { reveal_strlit("Pb"); }
                "Pb"
            },
            Self::Bi => {
                proof { reveal_strlit("Bi"); }
                "Bi"
            },
            Self::Po => {
                proof { reveal_strlit("Po"); }
                "Po"
            },
            Self::At => {
                proof { reveal_strlit("At"); }
                "At"
            },
            Self::Rn => {
                proof { reveal_strlit("Rn"); }
                "Rn"
            },
            Self::Fr => {
                proof { reveal_strlit("Fr"); }
                "Fr"
            },
            Self::Ra => {
                proof { reveal_strlit("Ra"); }
                "Ra"
            },
            Self::Ac => {
                proof { reveal_strlit("Ac"); }
                "Ac"
            },
            Self::Th => {
                proof { reveal_strlit("Th"); }
                "Th"
            },
            Self::Pa => {
                proof { reveal_strlit("Pa"); }
                "Pa"
            },
            Self::U => {
                proof { reveal_strlit("U"); }
                "U"
            },
            Self::Np => {
                proof { reveal_strlit("Np"); }
                "Np"
            },
            Self::Pu => {
                proof { reveal_strlit("Pu"); }
                "Pu"
            },
            Self::Am => {
                proof { reveal_strlit("Am"); }
                "Am"
            },
            Self::Cm => {
                proof { reveal_strlit("Cm"); }
                "Cm"
            },
            Self::Bk => {
                proof { reveal_strlit("Bk"); }
                "Bk"
            },
            Self::Cf => {
                proof { reveal_strlit("Cf"); }
                "Cf"
            },
            Self::Es => {
                proof { reveal_strlit("Es"); }
                "Es"
            },
            Self::Fm => {
                proof { reveal_strlit("Fm"); }
                "Fm"
            },
            Self::Md => {
                proof { reveal_strlit("Md"); }
                "Md"
            },
            Self::No => {
                proof { reveal_strlit("No"); }
                "No"
            },
            Self::Lr => {
                proof { reveal_strlit("Lr"); }
                "Lr"
            },
        }
    }

    /// The identity with atomic number `n`, if there is one.
    pub fn from_atomic_number(n: u64) -> (r: Option<Self>)
        ensures
            match r {
                Some(e) => e.number() == n,
                None => !is_atomic_number(n as int),
            },
    {
        match n {
            0 => Some(Self::H),
            2 => Some(Self::He),
            3 => Some(Self::Li),
            4 => Some(Self::Be),
            5 => Some(Self::B),
            6 => Some(Self::C),
            7 => Some(Self::N),
            8 => Some(Self::O),
            9 => Some(Self::F),
            10 => Some(Self::Ne),
            11 => Some(Self::Na),
            12 => Some(Self::Mg),
            13 => Some(Self::Al),
            14 => Some(Self::Si),
            15 => Some(Self::P),
            16 => Some(Self::S),
            17 => Some(Self::Cl),
            18 => Some(Self::Ar),
            19 => Some(Self::K),
            20 => Some(Self::Ca),
            21 => Some(Self::Sc),
            22 => Some(Self::Ti),
            23 => Some(Self::V),
            24 => Some(Self::Cr),
            25 => Some(Self::Mn),
            26 => Some(Self::Fe),
            27 => Some(Self::Co),
            28 => Some(Self::Ni),
            29 => Some(Self::Cu),
            30 => Some(Self::Zn),
            31 => Some(Self::Ga),
            32 => Some(Self::Ge),
            33 => Some(Self::As),
            34 => Some(Self::Se),
            35 => Some(Self::Br),
            36 => Some(Self::Kr),
            37 => Some(Self::Rb),
            38 => Some(Self::Sr),
            39 => Some(Self::Y),
            40 => Some(Self::Zr),
            41 => Some(Self::Nb),
            42 => Some(Self::Mo),
            43 => Some(Self::Tc),
            44 => Some(Self::Ru),
            45 => Some(Self::Rh),
            46 => Some(Self::Pd),
            47 => Some(Self::Ag),
            48 => Some(Self::Cd),
            49 => Some(Self::In),
            50 => Some(Self::Sn),
            51 => Some(Self::Sb),
            52 => Some(Self::Te),
            53 => Some(Self::I),
            54 => Some(Self::Xe),
            55 => Some(Self::Cs),
            56 => Some(Self::Ba),
            57 => Some(Self::La),
            58 => Some(Self::Ce),
            59 => Some(Self::Pr),
            60 => Some(Self::Nd),
            61 => Some(Self::Pm),
            62 => Some(Self::Sm),
            63 => Some(Self::Eu),
            64 => Some(Self::Gd),
            65 => Some(Self::Tb),
            66 => Some(Self::Dy),
            67 => Some(Self::Ho),
            68 => Some(Self::Er),
            69 => Some(Self::Tm),
            70 => Some(Self::Yb),
            71 => Some(Self::Lu),
            72 => Some(Self::Hf),
            73 => Some(Self::Ta),
            74 => Some(Self::W),
            75 => Some(Self::Re),
            76 => Some(Self::Os),
            77 => Some(Self::Ir),
            78 => Some(Self::Pt),
            79 => Some(Self::Au),
            80 => Some(Self::Hg),
            81 => Some(Self::Tl),
            82 => Some(Self::Pb),
            83 => Some(Self::Bi),
            84 => Some(Self::Po),
            85 => Some(Self::At),
            86 => Some(Self::Rn),
            87 => Some(Self::Fr),
            88 => Some(Self::Ra),
            89 => Some(Self::Ac),
            90 => Some(Self::Th),
            91 => Some(Self::Pa),
            92 => Some(Self::U),
            93 => Some(Self::Np),
            94 => Some(Self::Pu),
            95 => Some(Self::Am),
            96 => Some(Self::Cm),
            97 => Some(Self::Bk),
            98 => Some(Self::Cf),
            99 => Some(Self::Es),
            100 => Some(Self::Fm),
            101 => Some(Self::Md),
            102 => Some(Self::No),
            103 => Some(Self::Lr),
            _ => None,
        }
    }

    /// The identity whose symbol is spelled by `c0` and `c1`, if there is one.
    pub fn from_symbol_chars(c0: char, c1: Option<char>) -> (r: Option<Self>)
        ensures
            r == Self::with_symbol_chars(c0, c1),
            match r {
                Some(e) => e.symbol_text() == spelled(c0, c1),
                None => forall|e: Self| #[trigger] e.symbol_text() != spelled(c0, c1),
            },
    {
        let r = match (c0, c1) {
            ('H', None) => Some(Self::H),
            ('H', Some('e')) => Some(Self::He),
            ('L', Some('i')) => Some(Self::Li),
            ('B', Some('e')) => Some(Self::Be),
            ('B', None) => Some(Self::B),
            ('C', None) => Some(Self::C),
            ('N', None) => Some(Self::N),
            ('O', None) => Some(Self::O),
            ('F', None) => Some(Self::F),
            ('N', Some('e')) => Some(Self::Ne),
            ('N', Some('a')) => Some(Self::Na),
            ('M', Some('g')) => Some(Self::Mg),
            ('A', Some('l')) => Some(Self::Al),
            ('S', Some('i')) => Some(Self::Si),
            ('P', None) => Some(Self::P),
            ('S', None) => Some(Self::S),
            ('C', Some('l')) => Some(Self::Cl),
            ('A', Some('r')) => Some(Self::Ar),
            ('K', None) => Some(Self::K),
            ('C', Some('a')) => Some(Self::Ca),
            ('S', Some('c')) => Some(Self::Sc),
            ('T', Some('i')) => Some(Self::Ti),
            ('V', None) => Some(Self::V),
            ('C', Some('r')) => Some(Self::Cr),
            ('M', Some('n')) => Some(Self::Mn),
            ('F', Some('e')) => Some(Self::Fe),
            ('C', Some('o')) => Some(Self::Co),
            ('N', Some('i')) => Some(Self::Ni),
            ('C', Some('u')) => Some(Self::Cu),
            ('Z', Some('n')) => Some(Self::Zn),
            ('G', Some('a')) => Some(Self::Ga),
            ('G', Some('e')) => Some(Self::Ge),
            ('A', Some('s')) => Some(Self::As),
            ('S', Some('e')) => Some(Self::Se),
            ('B', Some('r')) => Some(Self::Br),
            ('K', Some('r')) => Some(Self::Kr),
            ('R', Some('b')) => Some(Self::Rb),
            ('S', Some('r')) => Some(Self::Sr),
            ('Y', None) => Some(Self::Y),
            ('Z', Some('r')) => Some(Self::Zr),
            ('N', Some('b')) => Some(Self::Nb),
            ('M', Some('o')) => Some(Self::Mo),
            ('T', Some('c')) => Some(Self::Tc),
            ('R', Some('u')) => Some(Self::Ru),
            ('R', Some('h')) => Some(Self::Rh),
            ('P', Some('d')) => Some(Self::Pd),
            ('A', Some('g')) => Some(Self::Ag),
            ('C', Some('d')) => Some(Self::Cd),
            ('I', Some('n')) => Some(Self::In),
            ('S', Some('n')) => Some(Self::Sn),
            ('S', Some('b')) => Some(Self::Sb),
            ('T', Some('e')) => Some(Self::Te),
            ('I', None) => Some(Self::I),
            ('X', Some('e')) => Some(Self::Xe),
            ('C', Some('s')) => Some(Self::Cs),
            ('B', Some('a')) => Some(Self::Ba),
            ('L', Some('a')) => Some(Self::La),
            ('C', Some('e')) => Some(Self::Ce),
            ('P', Some('r')) => Some(Self::Pr),
            ('N', Some('d')) => Some(Self::Nd),
            ('P', Some('m')) => Some(Self::Pm),
            ('S', Some('m')) => Some(Self::Sm),
            ('E', Some('u')) => Some(Self::Eu),
            ('G', Some('d')) => Some(Self::Gd),
            ('T', Some('b')) => Some(Self::Tb),
            ('D', Some('y')) => Some(Self::Dy),
            ('H', Some('o')) => Some(Self::Ho),
            ('E', Some('r')) => Some(Self::Er),
            ('T', Some('m')) => Some(Self::Tm),
            ('Y', Some('b')) => Some(Self::Yb),
            ('L', Some('u')) => Some(Self::Lu),
            ('H', Some('f')) => Some(Self::Hf),
            ('T', Some('a')) => Some(Self::Ta),
            ('W', None) => Some(Self::W),
            ('R', Some('e')) => Some(Self::Re),
            ('O', Some('s')) => Some(Self::Os),
            ('I', Some('r')) => Some(Self::Ir),
            ('P', Some('t')) => Some(Self::Pt),
            ('A', Some('u')) => Some(Self::Au),
            ('H', Some('g')) => Some(Self::Hg),
            ('T', Some('l')) => Some(Self::Tl),
            ('P', Some('b')) => Some(Self::Pb),
            ('B', Some('i')) => Some(Self::Bi),
            ('P', Some('o')) => Some(Self::Po),
            ('A', Some('t')) => Some(Self::At),
            ('R', Some('n')) => Some(Self::Rn),
            ('F', Some('r')) => Some(Self::Fr),
            ('R', Some('a')) => Some(Self::Ra),
            ('A', Some('c')) => Some(Self::Ac),
            ('T', Some('h')) => Some(Self::Th),
            ('P', Some('a')) => Some(Self::Pa),
            ('U', None) => Some(Self::U),
            ('N', Some('p')) => Some(Self::Np),
            ('P', Some('u')) => Some(Self::Pu),
            ('A', Some('m')) => Some(Self::Am),
            ('C', Some('m')) => Some(Self::Cm),
            ('B', Some('k')) => Some(Self::Bk),
            ('C', Some('f')) => Some(Self::Cf),
            ('E', Some('s')) => Some(Self::Es),
            ('F', Some('m')) => Some(Self::Fm),
            ('M', Some('d')) => Some(Self::Md),
            ('N', Some('o')) => Some(Self::No),
            ('L', Some('r')) => Some(Self::Lr),
            _ => None,
        };
        proof {
            if r is None {
                assert forall|e: Self| #[trigger] e.symbol_text() != spelled(c0, c1) by {
                    e.lemma_tables();
                    if e.symbol_text() == spelled(c0, c1) {
                        assert(e.symbol_text()[0] == c0);
                    }
                }
            }
        }
        r
    }
}

/// Identities compare by atomic number.
impl PartialOrd for ElementSymbol {
    fn partial_cmp(&self, other: &Self) -> (r: Option<Ordering>) {
        let a = self.atomic_number();
        let b = other.atomic_number();
        if a < b {
            Some(Ordering::Less)
        } else if a == b {
            Some(Ordering::Equal)
        } else {
            Some(Ordering::Greater)
        }
    }
}

impl vstd::std_specs::cmp::PartialOrdSpecImpl for ElementSymbol {
    open spec fn obeys_partial_cmp_spec() -> bool {
        true
    }

    open spec fn partial_cmp_spec(&self, other: &Self) -> Option<Ordering> {
        Some(compare_numbers(self.number() as int, other.number() as int))
    }
}

/// The family of an element, derived from its atomic number.
#[non_exhaustive]
#[derive(Clone, Copy, Debug, PartialEq, Eq, Structural, Hash)]
pub enum ElementFamily {
    TransitionMetal3d,
    TransitionMetal4d,
    TransitionMetal5d,
    RareEarthLa,
    RareEarthAc,
    Else,
}

/// The family of atomic number `n`: the first of these inclusive ranges that
/// holds it decides, and a number in none of them is `Else`.
pub open spec fn family_of_number(n: int) -> ElementFamily {
    if 21 <= n <= 30 {
        ElementFamily::TransitionMetal3d
    } else if 39 <= n <= 48 {
        ElementFamily::TransitionMetal4d
    } else if 57 <= n <= 71 {
        ElementFamily::RareEarthLa
    } else if 72 <= n <= 80 {
        ElementFamily::TransitionMetal5d
    } else if 89 <= n <= 103 {
        ElementFamily::RareEarthAc
    } else {
        ElementFamily::Else
    }
}

impl ElementSymbol {
    /// The family that the identity belongs to.
    pub fn family(&self) -> (r: ElementFamily)
        ensures
            r == family_of_number(self.number() as int),
    {
        let n = self.atomic_number();
        if 21 <= n && n <= 30 {
            ElementFamily::TransitionMetal3d
        } else if 39 <= n && n <= 48 {
            ElementFamily::TransitionMetal4d
        } else if 57 <= n && n <= 71 {
            ElementFamily::RareEarthLa
        } else if 72 <= n && n <= 80 {
            ElementFamily::TransitionMetal5d
        } else if 89 <= n && n <= 103 {
            ElementFamily::RareEarthAc
        } else {
            ElementFamily::Else
        }
    }
}

/// Every one of the six families holds some identity, so the classification
/// splits the identities into exactly these six non-empty groups.
pub proof fn lemma_every_family_occurs(f: ElementFamily)
    ensures
        exists|e: ElementSymbol| family_of_number(#[trigger] e.number() as int) == f,
{
    let e = match f {
        ElementFamily::TransitionMetal3d => ElementSymbol::Fe,
        ElementFamily::TransitionMetal4d => ElementSymbol::Ag,
        ElementFamily::TransitionMetal5d => ElementSymbol::Au,
        ElementFamily::RareEarthLa => ElementSymbol::La,
        ElementFamily::RareEarthAc => ElementSymbol::U,
        ElementFamily::Else => ElementSymbol::H,
    };
    assert(family_of_number(e.number() as int) == f);
}

/// An identity with a smaller atomic number compares less, and one with a
/// larger atomic number compares greater.
pub proof fn lemma_order_follows_number(a: ElementSymbol, b: ElementSymbol)
    requires
        a.number() < b.number(),
    ensures
        a.partial_cmp_spec(&b) == Some(Ordering::Less),
        b.partial_cmp_spec(&a) == Some(Ordering::Greater),
{
}

/// Whether `a` compares less than or equal to `b`.
pub open spec fn at_most(a: ElementSymbol, b: ElementSymbol) -> bool {
    a.partial_cmp_spec(&b) matches Some(Ordering::Less | Ordering::Equal)
}

/// A sequence of distinct identities sorted by their order is strictly
/// ascending by atomic number.
pub proof fn lemma_sorted_is_strictly_ascending(s: Seq<ElementSymbol>)
    requires
        s.no_duplicates(),
        forall|i: int, j: int| 0 <= i < j < s.len() ==> at_most(#[trigger] s[i], #[trigger] s[j]),
    ensures
        forall|i: int, j: int| 0 <= i < j < s.len() ==> #[trigger] s[i].number() < #[trigger] s[j].number(),
{
    assert forall|i: int, j: int| 0 <= i < j < s.len() implies #[trigger] s[i].number() < #[trigger] s[j].number() by {
        assert(at_most(s[i], s[j]));
        if s[i].number() == s[j].number() {
            s[i].lemma_number_injective(s[j]);
        }
    }
}

impl ElementSymbol {
    /// The display text of the identity: its canonical symbol.
    pub fn to_string(&self) -> (r: String)
        ensures
            r@ == self.symbol_text(),
    {
        String::from_str(self.as_str())
    }
}

/// Whether the two strings hold the same characters.
fn same_text(a: &str, b: &str) -> (r: bool)
    ensures
        r == (a@ == b@),
{
    let n = a.unicode_len();
    if n != b.unicode_len() {
        return false;
    }
    let mut i: usize = 0;
    while i < n
        invariant
            n == a@.len(),
            n == b@.len(),
            i <= n,
            a@.subrange(0, i as int) == b@.subrange(0, i as int),
        decreases n - i,
    {
        if a.get_char(i) != b.get_char(i) {
            return false;
        }
        proof {
            assert(a@.subrange(0, i + 1) =~= a@.subrange(0, i as int).push(a@[i as int]));
            assert(b@.subrange(0, i + 1) =~= b@.subrange(0, i as int).push(b@[i as int]));
        }
        i = i + 1;
    }
    proof {
        assert(a@ =~= a@.subrange(0, n as int));
        assert(b@ =~= b@.subrange(0, n as int));
    }
    true
}

/// An identity equals a string that holds its canonical symbol.
impl PartialEq<&str> for ElementSymbol {
    fn eq(&self, other: &&str) -> (r: bool) {
        same_text(self.as_str(), *other)
    }
}

impl vstd::std_specs::cmp::PartialEqSpecImpl<&str> for ElementSymbol {
    open spec fn obeys_eq_spec() -> bool {
        true
    }

    open spec fn eq_spec(&self, other: &&str) -> bool {
        self.symbol_text() == other@
    }
}

impl ElementSymbol {
    /// Every atomic number belongs to an identity.
    pub proof fn lemma_number_has_identity(n: int)
        requires
            is_atomic_number(n),
        ensures
            Self::with_number(n) matches Some(e) && e.number() == n,
    {
    }
}

/// The identity with atomic number `n`, where `n` is one.
pub open spec fn identity_with_number(n: int) -> ElementSymbol {
    choose|e: ElementSymbol| #[trigger] e.number() == n
}

/// The identities that `family` puts in the family `f`.
pub open spec fn family_members(f: ElementFamily) -> Set<ElementSymbol> {
    Set::new(|e: ElementSymbol| family_of_number(e.number() as int) == f)
}

/// The identities whose atomic numbers are the atomic numbers in `numbers`
/// are as many as those numbers.
proof fn lemma_identities_as_many_as_numbers(ids: Set<ElementSymbol>, numbers: Set<int>)
    requires
        numbers.finite(),
        forall|n: int| #[trigger] numbers.contains(n) ==> is_atomic_number(n),
        forall|e: ElementSymbol| #[trigger] ids.contains(e) <==> numbers.contains(e.number() as int),
    ensures
        ids.finite(),
        ids.len() == numbers.len(),
{
    let f = |n: int| identity_with_number(n);
    assert forall|n: int| #[trigger] numbers.contains(n) implies f(n).number() == n
        && ids.contains(f(n)) by {
        ElementSymbol::lemma_number_has_identity(n);
        let e = ElementSymbol::with_number(n)->Some_0;
        assert(e.number() == n);
    }
    assert(vstd::relations::injective_on(f, numbers)) by {
        assert forall|a: int, b: int|
            numbers.contains(a) && numbers.contains(b) && #[trigger] f(a) == #[trigger] f(b)
            implies a == b by {
            assert(f(a).number() == a);
            assert(f(b).number() == b);
        }
    }
    assert(numbers.map(f) =~= ids) by {
        assert forall|e: ElementSymbol| ids.contains(e) implies #[trigger] numbers.map(f).contains(e) by {
            let n = e.number() as int;
            assert(numbers.contains(n));
            f(n).lemma_number_injective(e);
        }
    }
    lemma_map_size(numbers, ids, f);
}

/// There are 103 identities, and the families hold 10 (3d transition
/// metals), 10 (4d), 9 (5d), 15 (lanthanides), 15 (actinides) and 44 (all
/// the rest) of them.
pub proof fn lemma_family_sizes()
    ensures
        Set::new(|e: ElementSymbol| true).len() == 103,
        family_members(ElementFamily::TransitionMetal3d).len() == 10,
        family_members(ElementFamily::TransitionMetal4d).len() == 10,
        family_members(ElementFamily::TransitionMetal5d).len() == 9,
        family_members(ElementFamily::RareEarthLa).len() == 15,
        family_members(ElementFamily::RareEarthAc).len() == 15,
        family_members(ElementFamily::Else).len() == 44,
{
    broadcast use vstd::set_lib::lemma_set_disjoint_lens;

    assert forall|e: ElementSymbol| is_atomic_number(#[trigger] e.number() as int) by {
        e.lemma_tables();
    }
    let zero = set_int_range(0, 1);
    lemma_int_range(0, 1);
    lemma_int_range(2, 104);
    lemma_identities_as_many_as_numbers(Set::new(|e: ElementSymbol| true), zero + set_int_range(2, 104));
    assert(zero.disjoint(set_int_range(2, 104)));

    lemma_int_range(21, 31);
    lemma_identities_as_many_as_numbers(family_members(ElementFamily::TransitionMetal3d), set_int_range(21, 31));
    lemma_int_range(39, 49);
    lemma_identities_as_many_as_numbers(family_members(ElementFamily::TransitionMetal4d), set_int_range(39, 49));
    lemma_int_range(72, 81);
    lemma_identities_as_many_as_numbers(family_members(ElementFamily::TransitionMetal5d), set_int_range(72, 81));
    lemma_int_range(57, 72);
    lemma_identities_as_many_as_numbers(family_members(ElementFamily::RareEarthLa), set_int_range(57, 72));
    lemma_int_range(89, 104);
    lemma_identities_as_many_as_numbers(family_members(ElementFamily::RareEarthAc), set_int_range(89, 104));

    let a = zero + set_int_range(2, 21);
    let b = a + set_int_range(31, 39);
    let c = b + set_int_range(49, 57);
    let rest = c + set_int_range(81, 89);
    lemma_int_range(2, 21);
    lemma_int_range(31, 39);
    lemma_int_range(49, 57);
    lemma_int_range(81, 89);
    assert(zero.disjoint(set_int_range(2, 21)));
    assert(a.disjoint(set_int_range(31, 39)));
    assert(b.disjoint(set_int_range(49, 57)));
    assert(c.disjoint(set_int_range(81, 89)));
    assert(rest.len() == 44);
    lemma_identities_as_many_as_numbers(family_members(ElementFamily::Else), rest);
}

} // verus!
