use std::str::FromStr;

use element_catalog::decimal::{decimal_string, parse_small_decimal};
use element_catalog::{
    decode, decode_number, decode_text, DecodeInput, ElementFamily, ElementSymbol,
    ElementSymbolDeserializer, SymbolError,
};

const ALL: [(&str, ElementSymbol); 103] = [
    ("H", ElementSymbol::H),
    ("He", ElementSymbol::He),
    ("Li", ElementSymbol::Li),
    ("Be", ElementSymbol::Be),
    ("B", ElementSymbol::B),
    ("C", ElementSymbol::C),
    ("N", ElementSymbol::N),
    ("O", ElementSymbol::O),
    ("F", ElementSymbol::F),
    ("Ne", ElementSymbol::Ne),
    ("Na", ElementSymbol::Na),
    ("Mg", ElementSymbol::Mg),
    ("Al", ElementSymbol::Al),
    ("Si", ElementSymbol::Si),
    ("P", ElementSymbol::P),
    ("S", ElementSymbol::S),
    ("Cl", ElementSymbol::Cl),
    ("Ar", ElementSymbol::Ar),
    ("K", ElementSymbol::K),
    ("Ca", ElementSymbol::Ca),
    ("Sc", ElementSymbol::Sc),
    ("Ti", ElementSymbol::Ti),
    ("V", ElementSymbol::V),
    ("Cr", ElementSymbol::Cr),
    ("Mn", ElementSymbol::Mn),
    ("Fe", ElementSymbol::Fe),
    ("Co", ElementSymbol::Co),
    ("Ni", ElementSymbol::Ni),
    ("Cu", ElementSymbol::Cu),
    ("Zn", ElementSymbol::Zn),
    ("Ga", ElementSymbol::Ga),
    ("Ge", ElementSymbol::Ge),
    ("As", ElementSymbol::As),
    ("Se", ElementSymbol::Se),
    ("Br", ElementSymbol::Br),
    ("Kr", ElementSymbol::Kr),
    ("Rb", ElementSymbol::Rb),
    ("Sr", ElementSymbol::Sr),
    ("Y", ElementSymbol::Y),
    ("Zr", ElementSymbol::Zr),
    ("Nb", ElementSymbol::Nb),
    ("Mo", ElementSymbol::Mo),
    ("Tc", ElementSymbol::Tc),
    ("Ru", ElementSymbol::Ru),
    ("Rh", ElementSymbol::Rh),
    ("Pd", ElementSymbol::Pd),
    ("Ag", ElementSymbol::Ag),
    ("Cd", ElementSymbol::Cd),
    ("In", ElementSymbol::In),
    ("Sn", ElementSymbol::Sn),
    ("Sb", ElementSymbol::Sb),
    ("Te", ElementSymbol::Te),
    ("I", ElementSymbol::I),
    ("Xe", ElementSymbol::Xe),
    ("Cs", ElementSymbol::Cs),
    ("Ba", ElementSymbol::Ba),
    ("La", ElementSymbol::La),
    ("Ce", ElementSymbol::Ce),
    ("Pr", ElementSymbol::Pr),
    ("Nd", ElementSymbol::Nd),
    ("Pm", ElementSymbol::Pm),
    ("Sm", ElementSymbol::Sm),
    ("Eu", ElementSymbol::Eu),
    ("Gd", ElementSymbol::Gd),
    ("Tb", ElementSymbol::Tb),
    ("Dy", ElementSymbol::Dy),
    ("Ho", ElementSymbol::Ho),
    ("Er", ElementSymbol::Er),
    ("Tm", ElementSymbol::Tm),
    ("Yb", ElementSymbol::Yb),
    ("Lu", ElementSymbol::Lu),
    ("Hf", ElementSymbol::Hf),
    ("Ta", ElementSymbol::Ta),
    ("W", ElementSymbol::W),
    ("Re", ElementSymbol::Re),
    ("Os", ElementSymbol::Os),
    ("Ir", ElementSymbol::Ir),
    ("Pt", ElementSymbol::Pt),
    ("Au", ElementSymbol::Au),
    ("Hg", ElementSymbol::Hg),
    ("Tl", ElementSymbol::Tl),
    ("Pb", ElementSymbol::Pb),
    ("Bi", ElementSymbol::Bi),
    ("Po", ElementSymbol::Po),
    ("At", ElementSymbol::At),
    ("Rn", ElementSymbol::Rn),
    ("Fr", ElementSymbol::Fr),
    ("Ra", ElementSymbol::Ra),
    ("Ac", ElementSymbol::Ac),
    ("Th", ElementSymbol::Th),
    ("Pa", ElementSymbol::Pa),
    ("U", ElementSymbol::U),
    ("Np", ElementSymbol::Np),
    ("Pu", ElementSymbol::Pu),
    ("Am", ElementSymbol::Am),
    ("Cm", ElementSymbol::Cm),
    ("Bk", ElementSymbol::Bk),
    ("Cf", ElementSymbol::Cf),
    ("Es", ElementSymbol::Es),
    ("Fm", ElementSymbol::Fm),
    ("Md", ElementSymbol::Md),
    ("No", ElementSymbol::No),
    ("Lr", ElementSymbol::Lr),
];

fn expected_number(position: usize) -> u8 {
    if position == 0 {
        0
    } else {
        (position + 1) as u8
    }
}

#[test]
fn test_serde() {
    let input = "Pt";
    let symbol = ElementSymbol::from_str(input);
    assert!(symbol.is_ok());
    println!("{:?}", symbol.unwrap());
    let input = 3_u32;
    let symbol = ElementSymbol::try_from(input);
    assert!(symbol.is_ok());
    println!("{:?}", symbol.unwrap());
}

#[test]
fn every_symbol_decodes_to_its_number() {
    for (position, (text, symbol)) in ALL.iter().enumerate() {
        let decoded = decode_text(text).unwrap();
        assert_eq!(decoded, *symbol);
        assert_eq!(decoded.atomic_number(), expected_number(position));
    }
}

#[test]
fn every_atomic_number_decodes() {
    let mut numbers: Vec<u64> = vec![0];
    numbers.extend(2..=103);
    assert_eq!(numbers.len(), 103);
    for (position, n) in numbers.iter().enumerate() {
        let decoded = decode_number(*n).unwrap();
        assert_eq!(decoded.atomic_number() as u64, *n);
        assert_eq!(decoded, ALL[position].1);
    }
}

#[test]
fn decimal_text_agrees_with_number() {
    let mut numbers: Vec<u64> = vec![0];
    numbers.extend(2..=103);
    for n in numbers {
        let text = n.to_string();
        let by_text = decode_text(&text).unwrap();
        let by_number = decode_number(n).unwrap();
        assert_eq!(by_text, by_number);
    }
    assert_eq!(decode_text("26").unwrap(), ElementSymbol::Fe);
    assert_eq!(decode_text("0").unwrap(), ElementSymbol::H);
    assert_eq!(decode_text("103").unwrap(), ElementSymbol::Lr);
}

#[test]
fn lower_case_symbol_is_rejected() {
    assert_eq!(
        decode_text("pt"),
        Err(SymbolError::InvalidSymbolText("pt".to_string()))
    );
    assert_eq!(decode_text("Pt"), Ok(ElementSymbol::Pt));
    assert!(decode_text("PT").is_err());
    assert!(decode_text("he").is_err());
}

#[test]
fn number_one_is_rejected() {
    assert_eq!(decode_number(1), Err(SymbolError::InvalidSymbolNumber(1)));
    assert_eq!(
        decode_text("1"),
        Err(SymbolError::InvalidSymbolText("1".to_string()))
    );
}

#[test]
fn unknown_number_and_text_are_rejected() {
    assert_eq!(
        decode_number(104),
        Err(SymbolError::InvalidSymbolNumber(104))
    );
    assert_eq!(
        decode_text("Xx"),
        Err(SymbolError::InvalidSymbolText("Xx".to_string()))
    );
    assert_eq!(
        decode_number(u64::MAX),
        Err(SymbolError::InvalidSymbolNumber(u64::MAX))
    );
}

#[test]
fn malformed_numeric_texts_are_rejected() {
    for text in ["", "02", "002", "+2", "-2", "104", "999", "1000", "2 ", " 2", "1e1", "H2"] {
        assert_eq!(
            decode_text(text),
            Err(SymbolError::InvalidSymbolText(text.to_string())),
            "{:?}",
            text
        );
    }
}

#[test]
fn families_follow_the_ranges() {
    assert_eq!(ElementSymbol::Fe.family(), ElementFamily::TransitionMetal3d);
    assert_eq!(ElementSymbol::Au.family(), ElementFamily::TransitionMetal5d);
    assert_eq!(ElementSymbol::Sc.family(), ElementFamily::TransitionMetal3d);
    assert_eq!(ElementSymbol::Zn.family(), ElementFamily::TransitionMetal3d);
    assert_eq!(ElementSymbol::Y.family(), ElementFamily::TransitionMetal4d);
    assert_eq!(ElementSymbol::Cd.family(), ElementFamily::TransitionMetal4d);
    assert_eq!(ElementSymbol::La.family(), ElementFamily::RareEarthLa);
    assert_eq!(ElementSymbol::Lu.family(), ElementFamily::RareEarthLa);
    assert_eq!(ElementSymbol::Hf.family(), ElementFamily::TransitionMetal5d);
    assert_eq!(ElementSymbol::Hg.family(), ElementFamily::TransitionMetal5d);
    assert_eq!(ElementSymbol::Ac.family(), ElementFamily::RareEarthAc);
    assert_eq!(ElementSymbol::Lr.family(), ElementFamily::RareEarthAc);
    assert_eq!(ElementSymbol::H.family(), ElementFamily::Else);
    assert_eq!(ElementSymbol::Ca.family(), ElementFamily::Else);
    assert_eq!(ElementSymbol::Ga.family(), ElementFamily::Else);
    assert_eq!(ElementSymbol::Tl.family(), ElementFamily::Else);
    assert_eq!(ElementSymbol::Ra.family(), ElementFamily::Else);
}

#[test]
fn families_split_all_identities() {
    let families = [
        ElementFamily::TransitionMetal3d,
        ElementFamily::TransitionMetal4d,
        ElementFamily::TransitionMetal5d,
        ElementFamily::RareEarthLa,
        ElementFamily::RareEarthAc,
        ElementFamily::Else,
    ];
    let counts: Vec<usize> = families
        .iter()
        .map(|f| ALL.iter().filter(|(_, s)| s.family() == *f).count())
        .collect();
    assert_eq!(counts, vec![10, 10, 9, 15, 15, 44]);
    assert_eq!(counts.iter().sum::<usize>(), 103);
}

#[test]
fn order_follows_atomic_number() {
    assert!(ElementSymbol::H < ElementSymbol::He);
    assert!(ElementSymbol::Fe < ElementSymbol::Au);
    assert!(ElementSymbol::Lr > ElementSymbol::No);
    assert_eq!(
        ElementSymbol::Pt.partial_cmp(&ElementSymbol::Pt),
        Some(std::cmp::Ordering::Equal)
    );
    assert_eq!(ElementSymbol::U.cmp(&ElementSymbol::C), std::cmp::Ordering::Greater);
    for (i, (_, a)) in ALL.iter().enumerate() {
        for (j, (_, b)) in ALL.iter().enumerate() {
            assert_eq!(a < b, i < j);
            assert_eq!(a.cmp(b), i.cmp(&j));
        }
    }
}

#[test]
fn sorting_gives_ascending_numbers() {
    let mut symbols: Vec<ElementSymbol> = ALL.iter().rev().map(|(_, s)| *s).collect();
    symbols.swap(3, 70);
    symbols.swap(10, 99);
    symbols.sort();
    assert_eq!(symbols.len(), 103);
    for pair in symbols.windows(2) {
        assert!(pair[0].atomic_number() < pair[1].atomic_number());
    }
    let mut by_partial: Vec<ElementSymbol> = ALL.iter().rev().map(|(_, s)| *s).collect();
    by_partial.sort_by(|a, b| a.partial_cmp(b).unwrap());
    assert_eq!(symbols, by_partial);
}

#[test]
fn symbols_round_trip() {
    for (text, symbol) in ALL.iter() {
        let decoded = ElementSymbol::from_str(text).unwrap();
        assert_eq!(decoded.to_string(), *text);
        assert_eq!(decoded.as_str(), *text);
        assert_eq!(*symbol, *text);
    }
    assert!(ElementSymbol::Fe != "Fe ");
    assert!(ElementSymbol::Fe != "F");
}

#[test]
fn deserializer_keeps_its_path() {
    let text = ElementSymbolDeserializer::from_str("Co");
    assert_eq!(text.deserialize(), Ok(ElementSymbol::Co));
    let number = ElementSymbolDeserializer::from_u64(27);
    assert_eq!(number.deserialize(), Ok(ElementSymbol::Co));
    assert_eq!(
        ElementSymbolDeserializer::from_str("Co2").deserialize(),
        Err(SymbolError::InvalidSymbolText("Co2".to_string()))
    );
    assert_eq!(
        ElementSymbolDeserializer::from_u64(1).deserialize(),
        Err(SymbolError::InvalidSymbolNumber(1))
    );
    assert_eq!(decode(DecodeInput::Text("N")), Ok(ElementSymbol::N));
    assert_eq!(decode(DecodeInput::Number(7)), Ok(ElementSymbol::N));
}

#[test]
fn conversions_from_every_width() {
    assert_eq!(ElementSymbol::try_from(2_u8), Ok(ElementSymbol::He));
    assert_eq!(ElementSymbol::try_from(79_u16), Ok(ElementSymbol::Au));
    assert_eq!(ElementSymbol::try_from(103_u32), Ok(ElementSymbol::Lr));
    assert_eq!(ElementSymbol::try_from(0_u64), Ok(ElementSymbol::H));
    assert_eq!(
        ElementSymbol::try_from(255_u8),
        Err(SymbolError::InvalidSymbolNumber(255))
    );
    assert_eq!(
        ElementSymbol::try_from(1_u32),
        Err(SymbolError::InvalidSymbolNumber(1))
    );
    assert_eq!(
        ElementSymbol::try_from(70000_u32),
        Err(SymbolError::InvalidSymbolNumber(70000))
    );
    assert_eq!(
        ElementSymbol::from_str("Zz"),
        Err(SymbolError::InvalidSymbolText("Zz".to_string()))
    );
}

#[test]
fn atomic_numbers_of_known_symbols() {
    assert_eq!(ElementSymbol::H.atomic_number(), 0);
    assert_eq!(ElementSymbol::He.atomic_number(), 2);
    assert_eq!(ElementSymbol::Fe.atomic_number(), 26);
    assert_eq!(ElementSymbol::Au.atomic_number(), 79);
    assert_eq!(ElementSymbol::Lr.atomic_number(), 103);
    assert_eq!(ElementSymbol::from_atomic_number(26), Some(ElementSymbol::Fe));
    assert_eq!(ElementSymbol::from_atomic_number(1), None);
    assert_eq!(ElementSymbol::from_symbol_chars('F', Some('e')), Some(ElementSymbol::Fe));
    assert_eq!(ElementSymbol::from_symbol_chars('F', None), Some(ElementSymbol::F));
    assert_eq!(ElementSymbol::from_symbol_chars('f', Some('e')), None);
}

#[test]
fn error_descriptions() {
    assert_eq!(
        SymbolError::InvalidSymbolText("Xx".to_string()).to_string(),
        "invalid element symbol: Xx"
    );
    assert_eq!(
        SymbolError::InvalidSymbolNumber(104).to_string(),
        "invalid atomic number: 104"
    );
    assert_eq!(
        SymbolError::InvalidSymbolNumber(0).to_string(),
        "invalid atomic number: 0"
    );
    assert_eq!(SymbolError::custom("no input").to_string(), "no input");
    assert_eq!(SymbolError::Eof.to_string(), "unexpected end of file");
    assert_eq!(SymbolError::ExpectedInteger.to_string(), "expect integer");
    assert_eq!(SymbolError::ExpectedString.to_string(), "expect String");
    assert_eq!(SymbolError::TrailingCharacters.to_string(), "trailing characters");
}

#[test]
fn decimal_spelling() {
    assert_eq!(decimal_string(0), "0");
    assert_eq!(decimal_string(7), "7");
    assert_eq!(decimal_string(10), "10");
    assert_eq!(decimal_string(103), "103");
    assert_eq!(decimal_string(u64::MAX), u64::MAX.to_string());
    assert_eq!(parse_small_decimal("0"), Some(0));
    assert_eq!(parse_small_decimal("42"), Some(42));
    assert_eq!(parse_small_decimal("999"), Some(999));
    assert_eq!(parse_small_decimal("1000"), None);
    assert_eq!(parse_small_decimal("07"), None);
    assert_eq!(parse_small_decimal("4a"), None);
    assert_eq!(parse_small_decimal(""), None);
}

#[test]
fn from_str_decodes_symbols_and_numbers() {
    for (position, (text, symbol)) in ALL.iter().enumerate() {
        assert_eq!(ElementSymbol::from_str(text), Ok(*symbol));
        let number = expected_number(position);
        assert_eq!(ElementSymbol::from_str(&number.to_string()), Ok(*symbol));
        assert_eq!(
            ElementSymbol::from_str(&number.to_string()),
            ElementSymbol::try_from(number as u64)
        );
    }
    assert_eq!(ElementSymbol::from_str("H"), Ok(ElementSymbol::H));
    assert_eq!(ElementSymbol::H.atomic_number(), 0);
    assert_eq!(ElementSymbol::from_str("26"), Ok(ElementSymbol::Fe));
}

#[test]
fn from_str_rejects_other_texts() {
    for text in ["", "pt", "Xx", "1", "fe", "FE", " Fe", "Fe ", "02", "+2", "104", "Iron"] {
        assert_eq!(
            ElementSymbol::from_str(text),
            Err(SymbolError::InvalidSymbolText(text.to_string())),
            "{:?}",
            text
        );
    }
}
