use sol_slot_leader::types::ClientType;
use std::sync::Arc;

fn other(s: &str) -> ClientType {
    ClientType::Other(Arc::from(s))
}

#[test]
fn parses_every_spelling() {
    let cases: Vec<(&str, ClientType)> = vec![
        ("agave", ClientType::Agave),
        ("agave_bam", ClientType::AgaveBam),
        ("agavebam", ClientType::AgaveBam),
        ("firedancer", ClientType::FireDancer),
        ("fire_dancer", ClientType::FireDancer),
        ("frankendancer", ClientType::FrankenDancer),
        ("franken_dancer", ClientType::FrankenDancer),
        ("harmonicagave", ClientType::HarmonicAgave),
        ("harmonic_agave", ClientType::HarmonicAgave),
        ("harmonicfrankendancer", ClientType::HarmonicFrankenDancer),
        ("harmonic_frankendancer", ClientType::HarmonicFrankenDancer),
        ("harmonic_franken_dancer", ClientType::HarmonicFrankenDancer),
        ("jitolabs", ClientType::JitoLabs),
        ("jito_labs", ClientType::JitoLabs),
        ("jito", ClientType::JitoLabs),
        ("rakurai", ClientType::Rakurai),
    ];
    for (text, expected) in cases {
        assert_eq!(ClientType::parse(text), expected, "{text}");
    }
}

#[test]
fn parse_ignores_ascii_case() {
    assert_eq!(ClientType::parse("AGAVE"), ClientType::Agave);
    assert_eq!(ClientType::parse("Harmonic_Franken_Dancer"), ClientType::HarmonicFrankenDancer);
    assert_eq!(ClientType::parse("JiTo"), ClientType::JitoLabs);
    assert_eq!(ClientType::parse("FireDancer"), ClientType::FireDancer);
}

#[test]
fn parse_trims_white_space() {
    assert_eq!(ClientType::parse("  agave\n"), ClientType::Agave);
    assert_eq!(ClientType::parse("\tJitoLabs \r\n"), ClientType::JitoLabs);
    assert_eq!(ClientType::parse("\u{3000}rakurai\u{a0}"), ClientType::Rakurai);
    assert_eq!(ClientType::parse("\u{2003}frankendancer\u{85}"), ClientType::FrankenDancer);
}

#[test]
fn unknown_text_is_kept_trimmed() {
    assert_eq!(ClientType::parse("  SomeClient  "), other("SomeClient"));
    assert_eq!(ClientType::parse("agave bam"), other("agave bam"));
    assert_eq!(ClientType::parse("jitolab"), other("jitolab"));
    assert_eq!(ClientType::parse("ＡGAVE"), other("ＡGAVE"));
    assert_eq!(ClientType::parse(""), other(""));
    assert_eq!(ClientType::parse(" \t "), other(""));
}

#[test]
fn from_impls_agree_with_parse() {
    assert_eq!(ClientType::from("  Agave "), ClientType::Agave);
    assert_eq!(ClientType::from(String::from("jito_labs")), ClientType::JitoLabs);
    assert_eq!(ClientType::from(Some(String::from("x "))), other("x"));
    assert_eq!(ClientType::from(Some(String::from("HarmonicAgave"))), ClientType::HarmonicAgave);
    assert_eq!(ClientType::from(None::<String>), other(""));
    assert_eq!(ClientType::parse_nullable(None), other(""));
}

#[test]
fn null_is_not_harmonic() {
    assert!(!ClientType::from(None::<String>).is_harmonic());
}

#[test]
fn harmonic_variants() {
    assert!(ClientType::HarmonicAgave.is_harmonic());
    assert!(ClientType::HarmonicFrankenDancer.is_harmonic());
    assert!(!ClientType::Agave.is_harmonic());
    assert!(!ClientType::FrankenDancer.is_harmonic());
    assert!(!ClientType::JitoLabs.is_harmonic());
    assert!(!other("harmonic").is_harmonic());
}

#[test]
fn display_strings() {
    assert_eq!(ClientType::Agave.display_string(), "Agave");
    assert_eq!(ClientType::AgaveBam.display_string(), "AgaveBam");
    assert_eq!(ClientType::FireDancer.display_string(), "FireDancer");
    assert_eq!(ClientType::FrankenDancer.display_string(), "FrankenDancer");
    assert_eq!(ClientType::HarmonicAgave.display_string(), "HarmonicAgave");
    assert_eq!(ClientType::HarmonicFrankenDancer.display_string(), "HarmonicFrankenDancer");
    assert_eq!(ClientType::JitoLabs.display_string(), "JitoLabs");
    assert_eq!(ClientType::Rakurai.display_string(), "Rakurai");
    assert_eq!(other("foo bar").display_string(), "Other(foo bar)");
    assert_eq!(other("").display_string(), "Other()");
}

#[test]
fn display_then_parse_round_trip() {
    for c in [
        ClientType::Agave,
        ClientType::AgaveBam,
        ClientType::FireDancer,
        ClientType::FrankenDancer,
        ClientType::HarmonicAgave,
        ClientType::HarmonicFrankenDancer,
        ClientType::JitoLabs,
        ClientType::Rakurai,
    ] {
        assert_eq!(ClientType::parse(&c.display_string()), c);
    }
    assert_eq!(ClientType::parse(&other("x").display_string()), other("Other(x)"));
}
