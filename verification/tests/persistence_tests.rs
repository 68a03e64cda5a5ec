use bar_aggregation::{
    eq_ignoring_ascii_case, AggressorSide, AggressorSideModel, AssetClass, AssetClassModel,
    CurrencyType, CurrencyTypeModel, TrailingOffsetType, TrailingOffsetTypeModel,
};

#[test]
fn test_eq_ignoring_ascii_case() {
    assert!(eq_ignoring_ascii_case("", ""));
    assert!(eq_ignoring_ascii_case("FIAT", "FIAT"));
    assert!(eq_ignoring_ascii_case("FIAT", "fiat"));
    assert!(eq_ignoring_ascii_case("fIaT", "FiAt"));
    assert!(eq_ignoring_ascii_case("a_z-09", "A_Z-09"));
    assert!(!eq_ignoring_ascii_case("FIAT", "FIAT "));
    assert!(!eq_ignoring_ascii_case("FIAT", "FIAX"));
    assert!(!eq_ignoring_ascii_case("FIAT", ""));
    // Only ASCII letters fold: '@' and '`' lie 32 apart, as do '[' and '{'.
    assert!(!eq_ignoring_ascii_case("@", "`"));
    assert!(!eq_ignoring_ascii_case("[", "{"));
    assert!(!eq_ignoring_ascii_case("É", "é"));
    assert!(eq_ignoring_ascii_case("É", "É"));
    assert!(!eq_ignoring_ascii_case("é", "e\u{301}"));
}

#[test]
fn test_currency_type_model_text() {
    assert_eq!(CurrencyTypeModel::sql_type(), "currency_type");
    assert_eq!(CurrencyTypeModel(CurrencyType::Crypto).encode_text(), "CRYPTO");
    assert_eq!(CurrencyTypeModel(CurrencyType::Fiat).encode_text(), "FIAT");
    assert_eq!(CurrencyTypeModel(CurrencyType::CommodityBacked).encode_text(), "COMMODITY_BACKED");
    for value in [CurrencyType::Crypto, CurrencyType::Fiat, CurrencyType::CommodityBacked] {
        let text = CurrencyTypeModel(value).encode_text();
        assert_eq!(CurrencyTypeModel::decode_text(text), Ok(CurrencyTypeModel(value)));
        assert_eq!(
            CurrencyTypeModel::decode_text(&text.to_lowercase()),
            Ok(CurrencyTypeModel(value))
        );
        assert_eq!(CurrencyType::parse(value.name()), Some(value));
    }
    assert_eq!(
        CurrencyTypeModel::decode_text("COMMODITY"),
        Err("Invalid currency type: COMMODITY".to_string())
    );
    assert_eq!(CurrencyTypeModel::decode_text(""), Err("Invalid currency type: ".to_string()));
    assert_eq!(CurrencyType::parse("CommodityBacked"), None);
}

#[test]
fn test_asset_class_model_text() {
    assert_eq!(AssetClassModel::sql_type(), "asset_class");
    let names = [
        (AssetClass::FX, "FX"),
        (AssetClass::Equity, "EQUITY"),
        (AssetClass::Commodity, "COMMODITY"),
        (AssetClass::Debt, "DEBT"),
        (AssetClass::Index, "INDEX"),
        (AssetClass::Cryptocurrency, "CRYPTOCURRENCY"),
        (AssetClass::Alternative, "ALTERNATIVE"),
    ];
    for (value, name) in names {
        assert_eq!(AssetClassModel(value).encode_text(), name);
        assert_eq!(AssetClassModel::decode_text(name), Ok(AssetClassModel(value)));
        assert_eq!(AssetClassModel::decode_text(&name.to_lowercase()), Ok(AssetClassModel(value)));
    }
    assert_eq!(
        AssetClassModel::decode_text("BOND"),
        Err("Invalid asset class: BOND".to_string())
    );
    assert_eq!(AssetClass::parse("CRYPTO"), None);
}

#[test]
fn test_trailing_offset_type_model_text() {
    assert_eq!(TrailingOffsetTypeModel::sql_type(), "trailing_offset_type");
    let names = [
        (TrailingOffsetType::NoTrailingOffset, "NO_TRAILING_OFFSET"),
        (TrailingOffsetType::Price, "PRICE"),
        (TrailingOffsetType::BasisPoints, "BASIS_POINTS"),
        (TrailingOffsetType::Ticks, "TICKS"),
        (TrailingOffsetType::PriceTier, "PRICE_TIER"),
    ];
    for (value, name) in names {
        assert_eq!(TrailingOffsetTypeModel(value).encode_text(), name);
        assert_eq!(
            TrailingOffsetTypeModel::decode_text(name),
            Ok(TrailingOffsetTypeModel(value))
        );
        assert_eq!(
            TrailingOffsetTypeModel::decode_text(&name.to_lowercase()),
            Ok(TrailingOffsetTypeModel(value))
        );
    }
    assert_eq!(
        TrailingOffsetTypeModel::decode_text("PRICE TIER"),
        Err("Invalid trailing offset type: PRICE TIER".to_string())
    );
}

#[test]
fn test_aggressor_side_model_text() {
    assert_eq!(AggressorSideModel::sql_type(), "aggressor_side");
    let names = [
        (AggressorSide::NoAggressor, "NO_AGGRESSOR"),
        (AggressorSide::Buyer, "BUYER"),
        (AggressorSide::Seller, "SELLER"),
    ];
    for (value, name) in names {
        assert_eq!(AggressorSideModel(value).encode_text(), name);
        assert_eq!(AggressorSideModel::decode_text(name), Ok(AggressorSideModel(value)));
        assert_eq!(
            AggressorSideModel::decode_text(&name.to_lowercase()),
            Ok(AggressorSideModel(value))
        );
    }
    assert_eq!(
        AggressorSideModel::decode_text("BUY"),
        Err("Invalid aggressor side: BUY".to_string())
    );
}
