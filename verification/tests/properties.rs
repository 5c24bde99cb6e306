use std::str::FromStr;

use algonaut_core::Address;
use algonaut_uri::u64_to_dec;
use algonaut_uri::AlgorandUrn;
use algonaut_uri::Param;

const ALGO_ADDRESS: &'static str = "TMTAD6N22HCS2LKH7677L2KFLT3PAQWY6M4JFQFXQS32ECBFC23F57RYX4";

#[test]
fn empty_builder_yields_bare_scheme() {
    let uri = AlgorandUrn::builder().build();
    assert_eq!(uri.to_string(), "algorand://");
}

#[test]
fn serialization_is_idempotent() {
    let uri = AlgorandUrn::builder()
        .address(Address::from_str(ALGO_ADDRESS).unwrap())
        .amount(7)
        .note("twice".to_string())
        .build();

    assert_eq!(uri.to_string(), uri.to_string());
}

#[test]
fn parameter_order_follows_call_order() {
    let amount_first = AlgorandUrn::builder()
        .amount(1)
        .label("x".to_string())
        .build();
    let label_first = AlgorandUrn::builder()
        .label("x".to_string())
        .amount(1)
        .build();

    assert_eq!(amount_first.to_string(), "algorand://?amount=1&label=x");
    assert_eq!(label_first.to_string(), "algorand://?label=x&amount=1");
    assert_ne!(amount_first.to_string(), label_first.to_string());
}

#[test]
fn duplicate_keys_are_kept_in_order() {
    let uri = AlgorandUrn::builder()
        .amount(1)
        .amount(2)
        .amount(1)
        .build();

    assert_eq!(uri.to_string(), "algorand://?amount=1&amount=2&amount=1");
}

#[test]
fn second_address_overwrites_first() {
    let a = Address::from_str(ALGO_ADDRESS).unwrap();
    let b = Address::new([0u8; 32]);
    let uri = AlgorandUrn::builder().address(b).address(a).build();

    assert_eq!(uri.to_string(), format!("algorand://{}", ALGO_ADDRESS));
}

#[test]
fn all_parameter_kinds_serialize() {
    let uri = AlgorandUrn::builder()
        .amount(150)
        .label("Cafe".to_string())
        .asset(31566704)
        .xnote("fixed".to_string())
        .note("editable".to_string())
        .other("session".to_string(), "42".to_string())
        .build();

    assert_eq!(
        uri.to_string(),
        "algorand://?amount=150&label=Cafe&asset=31566704&xnote=fixed&note=editable&session=42"
    );
}

#[test]
fn single_param_has_no_separator() {
    let uri = AlgorandUrn::builder().asset(31566704).build();
    assert_eq!(uri.to_string(), "algorand://?asset=31566704");
}

#[test]
fn param_text_per_variant() {
    assert_eq!(Param::Amount(0).to_string(), "amount=0");
    assert_eq!(Param::Label("Silvio".to_string()).to_string(), "label=Silvio");
    assert_eq!(Param::Asset(31566704).to_string(), "asset=31566704");
    assert_eq!(Param::XNote("a b".to_string()).to_string(), "xnote=a b");
    assert_eq!(Param::Note("".to_string()).to_string(), "note=");
    assert_eq!(
        Param::Other("k".to_string(), "v".to_string()).to_string(),
        "k=v"
    );
}

#[test]
fn decimal_rendering_is_exact() {
    assert_eq!(u64_to_dec(0), "0");
    assert_eq!(u64_to_dec(9), "9");
    assert_eq!(u64_to_dec(10), "10");
    assert_eq!(u64_to_dec(150500000), "150500000");
    assert_eq!(u64_to_dec(u64::MAX), "18446744073709551615");
}

#[test]
fn address_text_matches_algonaut_rendering() {
    let a = Address::from_str(ALGO_ADDRESS).unwrap();
    let uri = AlgorandUrn::builder().address(a).build();

    assert_eq!(uri.to_string(), format!("algorand://{}", a));
}
