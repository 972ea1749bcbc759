use inkanim::{
    is_any_default_localization_string, lockey_from_id, lockey_from_text, LocKeyError, inkEAnchor, inkPropertyBinding, inkPropertyManager, textOverflowPolicy, CName, Decimal,
    HandleId, IsDefault, LocKey, LocalizationString, PropertyManager, RedsValue, ResourcePath,
    ScrollTextSpeed,
};

fn dec(units: i64, scale: u8) -> Decimal {
    Decimal::new(units, scale).unwrap()
}

#[test]
fn whole_numbers_end_with_a_point() {
    assert_eq!(dec(2, 0).reds_value(), "2.");
    assert_eq!(dec(0, 0).reds_value(), "0.");
    assert_eq!(dec(-360, 0).reds_value(), "-360.");
    assert_eq!(dec(200, 2).reds_value(), "2.");
    assert_eq!(dec(20, 1).reds_value(), "2.");
    assert_eq!(dec(30, 1).reds_value(), "3.");
    assert_eq!(dec(-3600, 1).reds_value(), "-360.");
    assert_eq!(dec(0, 5).reds_value(), "0.");
}

#[test]
fn fractions_keep_their_digits() {
    assert_eq!(dec(6, 1).reds_value(), "0.6");
    assert_eq!(dec(-125, 2).reds_value(), "-1.25");
    assert_eq!(dec(5, 2).reds_value(), "0.05");
    assert_eq!(dec(60, 2).reds_value(), "0.6");
    assert_eq!(dec(6, 1).scale(), 1);
    assert_eq!(dec(60, 2).scale(), 1);
    assert_eq!(dec(60, 2).units(), 6);
    assert_eq!(dec(i64::MIN, 18).reds_value(), "-9.223372036854775808");
}

#[test]
fn decimal_scale_is_bounded() {
    assert!(Decimal::new(1, 18).is_some());
    assert!(Decimal::new(1, 19).is_none());
}

#[test]
fn decimals_compare_by_value() {
    assert!(dec(5, 1).same_value(&dec(50, 2)));
    assert!(dec(5, 1).less_than(&dec(6, 1)));
    assert!(dec(-1, 0).less_than(&dec(0, 3)));
    assert!(!dec(1, 0).less_than(&dec(1, 0)));
    assert!(dec(0, 4).is_default());
    assert!(!dec(1, 4).is_default());
}

#[test]
fn quoted_literals_carry_their_prefix() {
    assert_eq!(CName("title".to_string()).reds_value(), "n\"title\"");
    assert_eq!(
        ResourcePath("base\\gameplay\\gui\\a.inkatlas".to_string()).reds_value(),
        "r\"base\\gameplay\\gui\\a.inkatlas\""
    );
    assert_eq!("plain".to_string().reds_value(), "\"plain\"");
    assert_eq!(true.reds_value(), "true");
    assert_eq!(false.reds_value(), "false");
    assert_eq!(HandleId(42).reds_value(), "42");
}

#[test]
fn localization_strings() {
    let loc = |v: Option<LocKey>| LocalizationString { value: v }.reds_value();
    assert_eq!(loc(None), "null");
    assert_eq!(loc(Some(LocKey::ID(0))), "null");
    assert_eq!(loc(Some(LocKey::ID(123))), "LocKey#123");
    assert_eq!(loc(Some(LocKey::Value("null".to_string()))), "null");
    assert_eq!(loc(Some(LocKey::Value("None".to_string()))), "null");
    assert_eq!(loc(Some(LocKey::Value("UI-Key".to_string()))), "l\"UI-Key\"");
}

#[test]
fn enums_render_with_their_type() {
    assert_eq!(inkEAnchor::Centered.reds_value(), "inkEAnchor.Centered");
    assert_eq!(textOverflowPolicy::NoOverflow.reds_value(), "textOverflowPolicy.None");
    assert!(inkEAnchor::TopLeft.is_default());
    assert!(!inkEAnchor::Fill.is_default());
}

#[test]
fn defaults_of_named_values() {
    assert!(CName("None".to_string()).is_default());
    assert!(!CName("".to_string()).is_default());
    assert!(CName::default().is_default());
    assert!(ScrollTextSpeed(dec(2, 1)).is_default());
    assert!(ScrollTextSpeed(dec(20, 2)).is_default());
    assert!(!ScrollTextSpeed(dec(0, 0)).is_default());
}

#[test]
fn property_manager_literal() {
    let pm = PropertyManager {
        handle_id: HandleId(7),
        data: inkPropertyManager {
            bindings: vec![inkPropertyBinding {
                property_name: CName("tintColor".to_string()),
                style_path: CName("MainColors.Red".to_string()),
            }],
        },
    };
    assert_eq!(
        pm.reds_value(),
        "new PropertyManager(7, new inkPropertyManager([new inkPropertyBinding(n\"tintColor\", n\"MainColors.Red\")]))"
    );
}

#[test]
fn localization_keys_from_numbers_and_text() {
    assert_eq!(lockey_from_id(12345), Ok(LocKey::ID(12345)));
    assert_eq!(lockey_from_id(100000), Err(LocKeyError::IdTooLarge));
    assert_eq!(lockey_from_text("LocKey#00042"), Ok(LocKey::ID(42)));
    assert_eq!(lockey_from_text("LocKey#4x042"), Err(LocKeyError::BadId));
    assert_eq!(lockey_from_text("LocKey#42"), Ok(LocKey::Value("LocKey#42".to_string())));
    assert_eq!(lockey_from_text(""), Ok(LocKey::Value(String::new())));
    assert_eq!(lockey_from_text("UI-Menu-Title"), Ok(LocKey::Value("UI-Menu-Title".to_string())));
}

#[test]
fn decimal_addition_aligns_scales() {
    let s = dec(15, 1).checked_add(&dec(25, 2)).unwrap();
    assert_eq!(s.reds_value(), "1.75");
    assert_eq!(s.scale(), 2);
    let w = dec(2, 0).checked_add(&dec(-2, 0)).unwrap();
    assert_eq!(w.reds_value(), "0.");
    assert!(dec(i64::MAX, 0).checked_add(&dec(1, 0)).is_none());
    assert!(dec(i64::MAX, 0).checked_add(&dec(1, 1)).is_none());
}

#[test]
fn empty_translations() {
    let l = |v: Option<LocKey>| is_any_default_localization_string(&LocalizationString { value: v });
    assert!(l(None));
    assert!(l(Some(LocKey::ID(0))));
    assert!(l(Some(LocKey::Value(String::new()))));
    assert!(!l(Some(LocKey::ID(3))));
    assert!(!l(Some(LocKey::Value("None".to_string()))));
}
