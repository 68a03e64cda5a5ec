//! The text that stands for an enum in a relational store.
//!
//! Each model wraps one enum. It is written to the store as the enum's name
//! in upper case, and read back from any spelling of that name that differs
//! only in the case of its letters.

use vstd::prelude::*;
use vstd::string::{StrSliceExecFns, StringExecFns};

verus! {

/// The upper-case form of an ASCII letter; any other character itself.
pub open spec fn ascii_upper(c: char) -> char {
    if 'a' <= c <= 'z' {
        ((c as u32) - 32) as char
    } else {
        c
    }
}

/// Whether two texts are equal up to the case of their ASCII letters.
pub open spec fn same_ignoring_ascii_case(a: Seq<char>, b: Seq<char>) -> bool {
    &&& a.len() == b.len()
    &&& forall|i: int| 0 <= i < a.len() ==> ascii_upper(#[trigger] a[i]) == ascii_upper(b[i])
}

fn upper(c: char) -> (r: char)
    ensures
        r == ascii_upper(c),
{
    if c >= 'a' && c <= 'z' {
        ((c as u8) - 32) as char
    } else {
        c
    }
}

/// Whether two texts are equal up to the case of their ASCII letters.
pub fn eq_ignoring_ascii_case(a: &str, b: &str) -> (r: bool)
    ensures
        r == same_ignoring_ascii_case(a@, b@),
{
    let n = a.unicode_len();
    if n != b.unicode_len() {
        return false;
    }
    let mut i: usize = 0;
    while i < n
        invariant
            i <= n,
            n == a@.len(),
            n == b@.len(),
            forall|j: int| 0 <= j < i ==> ascii_upper(#[trigger] a@[j]) == ascii_upper(b@[j]),
        decreases n - i,
    {
        if upper(a.get_char(i)) != upper(b.get_char(i)) {
            return false;
        }
        i += 1;
    }
    true
}

/// The message for a text that names no value: `what`, then the text.
fn invalid(what: &str, text: &str) -> (message: String)
    ensures
        message@ == what@ + text@,
{
    let mut message = String::from_str(what);
    message.append(text);
    message
}

/// The kind of a currency.
#[derive(Clone, Copy, Debug, PartialEq, Eq, Structural)]
pub enum CurrencyType {
    Crypto,
    Fiat,
    CommodityBacked,
}

impl CurrencyType {
    /// The name of the value, in upper case.
    pub open spec fn spec_name(self) -> Seq<char> {
        match self {
            CurrencyType::Crypto => "CRYPTO"@,
            CurrencyType::Fiat => "FIAT"@,
            CurrencyType::CommodityBacked => "COMMODITY_BACKED"@,
        }
    }

    /// The value that the text names, whatever the case of its letters.
    pub open spec fn spec_parse(text: Seq<char>) -> Option<CurrencyType> {
        if same_ignoring_ascii_case(text, "CRYPTO"@) {
            Some(CurrencyType::Crypto)
        } else if same_ignoring_ascii_case(text, "FIAT"@) {
            Some(CurrencyType::Fiat)
        } else if same_ignoring_ascii_case(text, "COMMODITY_BACKED"@) {
            Some(CurrencyType::CommodityBacked)
        } else {
            None
        }
    }

    pub fn name(&self) -> (s: &'static str)
        ensures
            s@ == self.spec_name(),
    {
        match self {
            CurrencyType::Crypto => "CRYPTO",
            CurrencyType::Fiat => "FIAT",
            CurrencyType::CommodityBacked => "COMMODITY_BACKED",
        }
    }

    pub fn parse(text: &str) -> (r: Option<CurrencyType>)
        ensures
            r == CurrencyType::spec_parse(text@),
    {
        if eq_ignoring_ascii_case(text, "CRYPTO") {
            Some(CurrencyType::Crypto)
        } else if eq_ignoring_ascii_case(text, "FIAT") {
            Some(CurrencyType::Fiat)
        } else if eq_ignoring_ascii_case(text, "COMMODITY_BACKED") {
            Some(CurrencyType::CommodityBacked)
        } else {
            None
        }
    }
}

/// How a currency type is kept in the store.
#[derive(Clone, Copy, Debug, PartialEq, Eq, Structural)]
pub struct CurrencyTypeModel(pub CurrencyType);

impl CurrencyTypeModel {
    /// The name of the store's type for the column.
    pub fn sql_type() -> (s: &'static str)
        ensures
            s@ == "currency_type"@,
    {
        "currency_type"
    }

    /// The text written to the store.
    pub fn encode_text(&self) -> (s: &'static str)
        ensures
            s@ == self.0.spec_name(),
    {
        self.0.name()
    }

    /// The model read from the text of the store, or a message that tells
    /// of the text where it names no currency type.
    pub fn decode_text(text: &str) -> (r: Result<CurrencyTypeModel, String>)
        ensures
            match CurrencyType::spec_parse(text@) {
                Some(value) => r == Ok::<CurrencyTypeModel, String>(CurrencyTypeModel(value)),
                None => r matches Err(message) && message@ == "Invalid currency type: "@ + text@,
            },
    {
        match CurrencyType::parse(text) {
            Some(value) => Ok(CurrencyTypeModel(value)),
            None => Err(invalid("Invalid currency type: ", text)),
        }
    }
}

/// What is written for a currency type is read back as the same value.
pub proof fn lemma_currency_type_reads_back(value: CurrencyType)
    ensures
        CurrencyType::spec_parse(value.spec_name()) == Some(value),
{
    reveal_strlit("CRYPTO");
    reveal_strlit("FIAT");
    reveal_strlit("COMMODITY_BACKED");
}

/// The class of an asset.
#[derive(Clone, Copy, Debug, PartialEq, Eq, Structural)]
pub enum AssetClass {
    FX,
    Equity,
    Commodity,
    Debt,
    Index,
    Cryptocurrency,
    Alternative,
}

impl AssetClass {
    /// The name of the value, in upper case.
    pub open spec fn spec_name(self) -> Seq<char> {
        match self {
            AssetClass::FX => "FX"@,
            AssetClass::Equity => "EQUITY"@,
            AssetClass::Commodity => "COMMODITY"@,
            AssetClass::Debt => "DEBT"@,
            AssetClass::Index => "INDEX"@,
            AssetClass::Cryptocurrency => "CRYPTOCURRENCY"@,
            AssetClass::Alternative => "ALTERNATIVE"@,
        }
    }

    /// The value that the text names, whatever the case of its letters.
    pub open spec fn spec_parse(text: Seq<char>) -> Option<AssetClass> {
        if same_ignoring_ascii_case(text, "FX"@) {
            Some(AssetClass::FX)
        } else if same_ignoring_ascii_case(text, "EQUITY"@) {
            Some(AssetClass::Equity)
        } else if same_ignoring_ascii_case(text, "COMMODITY"@) {
            Some(AssetClass::Commodity)
        } else if same_ignoring_ascii_case(text, "DEBT"@) {
            Some(AssetClass::Debt)
        } else if same_ignoring_ascii_case(text, "INDEX"@) {
            Some(AssetClass::Index)
        } else if same_ignoring_ascii_case(text, "CRYPTOCURRENCY"@) {
            Some(AssetClass::Cryptocurrency)
        } else if same_ignoring_ascii_case(text, "ALTERNATIVE"@) {
            Some(AssetClass::Alternative)
        } else {
            None
        }
    }

    pub fn name(&self) -> (s: &'static str)
        ensures
            s@ == self.spec_name(),
    {
        match self {
            AssetClass::FX => "FX",
            AssetClass::Equity => "EQUITY",
            AssetClass::Commodity => "COMMODITY",
            AssetClass::Debt => "DEBT",
            AssetClass::Index => "INDEX",
            AssetClass::Cryptocurrency => "CRYPTOCURRENCY",
            AssetClass::Alternative => "ALTERNATIVE",
        }
    }

    pub fn parse(text: &str) -> (r: Option<AssetClass>)
        ensures
            r == AssetClass::spec_parse(text@),
    {
        if eq_ignoring_ascii_case(text, "FX") {
            Some(AssetClass::FX)
        } else if eq_ignoring_ascii_case(text, "EQUITY") {
            Some(AssetClass::Equity)
        } else if eq_ignoring_ascii_case(text, "COMMODITY") {
            Some(AssetClass::Commodity)
        } else if eq_ignoring_ascii_case(text, "DEBT") {
            Some(AssetClass::Debt)
        } else if eq_ignoring_ascii_case(text, "INDEX") {
            Some(AssetClass::Index)
        } else if eq_ignoring_ascii_case(text, "CRYPTOCURRENCY") {
            Some(AssetClass::Cryptocurrency)
        } else if eq_ignoring_ascii_case(text, "ALTERNATIVE") {
            Some(AssetClass::Alternative)
        } else {
            None
        }
    }
}

/// How an asset class is kept in the store.
#[derive(Clone, Copy, Debug, PartialEq, Eq, Structural)]
pub struct AssetClassModel(pub AssetClass);

impl AssetClassModel {
    /// The name of the store's type for the column.
    pub fn sql_type() -> (s: &'static str)
        ensures
            s@ == "asset_class"@,
    {
        "asset_class"
    }

    /// The text written to the store.
    pub fn encode_text(&self) -> (s: &'static str)
        ensures
            s@ == self.0.spec_name(),
    {
        self.0.name()
    }

    /// The model read from the text of the store, or a message that tells
    /// of the text where it names no asset class.
    pub fn decode_text(text: &str) -> (r: Result<AssetClassModel, String>)
        ensures
            match AssetClass::spec_parse(text@) {
                Some(value) => r == Ok::<AssetClassModel, String>(AssetClassModel(value)),
                None => r matches Err(message) && message@ == "Invalid asset class: "@ + text@,
            },
    {
        match AssetClass::parse(text) {
            Some(value) => Ok(AssetClassModel(value)),
            None => Err(invalid("Invalid asset class: ", text)),
        }
    }
}

/// What is written for an asset class is read back as the same value.
pub proof fn lemma_asset_class_reads_back(value: AssetClass)
    ensures
        AssetClass::spec_parse(value.spec_name()) == Some(value),
{
    reveal_strlit("FX");
    reveal_strlit("EQUITY");
    reveal_strlit("COMMODITY");
    reveal_strlit("DEBT");
    reveal_strlit("INDEX");
    reveal_strlit("CRYPTOCURRENCY");
    reveal_strlit("ALTERNATIVE");
}

/// The unit in which the offset of a trailing stop is given.
#[derive(Clone, Copy, Debug, PartialEq, Eq, Structural)]
pub enum TrailingOffsetType {
    NoTrailingOffset,
    Price,
    BasisPoints,
    Ticks,
    PriceTier,
}

impl TrailingOffsetType {
    /// The name of the value, in upper case.
    pub open spec fn spec_name(self) -> Seq<char> {
        match self {
            TrailingOffsetType::NoTrailingOffset => "NO_TRAILING_OFFSET"@,
            TrailingOffsetType::Price => "PRICE"@,
            TrailingOffsetType::BasisPoints => "BASIS_POINTS"@,
            TrailingOffsetType::Ticks => "TICKS"@,
            TrailingOffsetType::PriceTier => "PRICE_TIER"@,
        }
    }

    /// The value that the text names, whatever the case of its letters.
    pub open spec fn spec_parse(text: Seq<char>) -> Option<TrailingOffsetType> {
        if same_ignoring_ascii_case(text, "NO_TRAILING_OFFSET"@) {
            Some(TrailingOffsetType::NoTrailingOffset)
        } else if same_ignoring_ascii_case(text, "PRICE"@) {
            Some(TrailingOffsetType::Price)
        } else if same_ignoring_ascii_case(text, "BASIS_POINTS"@) {
            Some(TrailingOffsetType::BasisPoints)
        } else if same_ignoring_ascii_case(text, "TICKS"@) {
            Some(TrailingOffsetType::Ticks)
        } else if same_ignoring_ascii_case(text, "PRICE_TIER"@) {
            Some(TrailingOffsetType::PriceTier)
        } else {
            None
        }
    }

    pub fn name(&self) -> (s: &'static str)
        ensures
            s@ == self.spec_name(),
    {
        match self {
            TrailingOffsetType::NoTrailingOffset => "NO_TRAILING_OFFSET",
            TrailingOffsetType::Price => "PRICE",
            TrailingOffsetType::BasisPoints => "BASIS_POINTS",
            TrailingOffsetType::Ticks => "TICKS",
            TrailingOffsetType::PriceTier => "PRICE_TIER",
        }
    }

    pub fn parse(text: &str) -> (r: Option<TrailingOffsetType>)
        ensures
            r == TrailingOffsetType::spec_parse(text@),
    {
        if eq_ignoring_ascii_case(text, "NO_TRAILING_OFFSET") {
            Some(TrailingOffsetType::NoTrailingOffset)
        } else if eq_ignoring_ascii_case(text, "PRICE") {
            Some(TrailingOffsetType::Price)
        } else if eq_ignoring_ascii_case(text, "BASIS_POINTS") {
            Some(TrailingOffsetType::BasisPoints)
        } else if eq_ignoring_ascii_case(text, "TICKS") {
            Some(TrailingOffsetType::Ticks)
        } else if eq_ignoring_ascii_case(text, "PRICE_TIER") {
            Some(TrailingOffsetType::PriceTier)
        } else {
            None
        }
    }
}

/// How a trailing offset type is kept in the store.
#[derive(Clone, Copy, Debug, PartialEq, Eq, Structural)]
pub struct TrailingOffsetTypeModel(pub TrailingOffsetType);

impl TrailingOffsetTypeModel {
    /// The name of the store's type for the column.
    pub fn sql_type() -> (s: &'static str)
        ensures
            s@ == "trailing_offset_type"@,
    {
        "trailing_offset_type"
    }

    /// The text written to the store.
    pub fn encode_text(&self) -> (s: &'static str)
        ensures
            s@ == self.0.spec_name(),
    {
        self.0.name()
    }

    /// The model read from the text of the store, or a message that tells
    /// of the text where it names no trailing offset type.
    pub fn decode_text(text: &str) -> (r: Result<TrailingOffsetTypeModel, String>)
        ensures
            match TrailingOffsetType::spec_parse(text@) {
                Some(value) => r == Ok::<TrailingOffsetTypeModel, String>(
                    TrailingOffsetTypeModel(value),
                ),
                None => r matches Err(message) && message@ == "Invalid trailing offset type: "@
                    + text@,
            },
    {
        match TrailingOffsetType::parse(text) {
            Some(value) => Ok(TrailingOffsetTypeModel(value)),
            None => Err(invalid("Invalid trailing offset type: ", text)),
        }
    }
}

/// What is written for a trailing offset type is read back as the same value.
pub proof fn lemma_trailing_offset_type_reads_back(value: TrailingOffsetType)
    ensures
        TrailingOffsetType::spec_parse(value.spec_name()) == Some(value),
{
    reveal_strlit("NO_TRAILING_OFFSET");
    reveal_strlit("PRICE");
    reveal_strlit("BASIS_POINTS");
    reveal_strlit("TICKS");
    reveal_strlit("PRICE_TIER");
    let name = value.spec_name();
    if value == TrailingOffsetType::Ticks {
        assert(ascii_upper(name[0]) != ascii_upper("PRICE"@[0]));
    }
}

/// The side that crossed the spread in a trade.
#[derive(Clone, Copy, Debug, PartialEq, Eq, Structural)]
pub enum AggressorSide {
    NoAggressor,
    Buyer,
    Seller,
}

impl AggressorSide {
    /// The name of the value, in upper case.
    pub open spec fn spec_name(self) -> Seq<char> {
        match self {
            AggressorSide::NoAggressor => "NO_AGGRESSOR"@,
            AggressorSide::Buyer => "BUYER"@,
            AggressorSide::Seller => "SELLER"@,
        }
    }

    /// The value that the text names, whatever the case of its letters.
    pub open spec fn spec_parse(text: Seq<char>) -> Option<AggressorSide> {
        if same_ignoring_ascii_case(text, "NO_AGGRESSOR"@) {
            Some(AggressorSide::NoAggressor)
        } else if same_ignoring_ascii_case(text, "BUYER"@) {
            Some(AggressorSide::Buyer)
        } else if same_ignoring_ascii_case(text, "SELLER"@) {
            Some(AggressorSide::Seller)
        } else {
            None
        }
    }

    pub fn name(&self) -> (s: &'static str)
        ensures
            s@ == self.spec_name(),
    {
        match self {
            AggressorSide::NoAggressor => "NO_AGGRESSOR",
            AggressorSide::Buyer => "BUYER",
            AggressorSide::Seller => "SELLER",
        }
    }

    pub fn parse(text: &str) -> (r: Option<AggressorSide>)
        ensures
            r == AggressorSide::spec_parse(text@),
    {
        if eq_ignoring_ascii_case(text, "NO_AGGRESSOR") {
            Some(AggressorSide::NoAggressor)
        } else if eq_ignoring_ascii_case(text, "BUYER") {
            Some(AggressorSide::Buyer)
        } else if eq_ignoring_ascii_case(text, "SELLER") {
            Some(AggressorSide::Seller)
        } else {
            None
        }
    }
}

/// How an aggressor side is kept in the store.
#[derive(Clone, Copy, Debug, PartialEq, Eq, Structural)]
pub struct AggressorSideModel(pub AggressorSide);

impl AggressorSideModel {
    /// The name of the store's type for the column.
    pub fn sql_type() -> (s: &'static str)
        ensures
            s@ == "aggressor_side"@,
    {
        "aggressor_side"
    }

    /// The text written to the store.
    pub fn encode_text(&self) -> (s: &'static str)
        ensures
            s@ == self.0.spec_name(),
    {
        self.0.name()
    }

    /// The model read from the text of the store, or a message that tells
    /// of the text where it names no aggressor side.
    pub fn decode_text(text: &str) -> (r: Result<AggressorSideModel, String>)
        ensures
            match AggressorSide::spec_parse(text@) {
                Some(value) => r == Ok::<AggressorSideModel, String>(AggressorSideModel(value)),
                None => r matches Err(message) && message@ == "Invalid aggressor side: "@ + text@,
            },
    {
        match AggressorSide::parse(text) {
            Some(value) => Ok(AggressorSideModel(value)),
            None => Err(invalid("Invalid aggressor side: ", text)),
        }
    }
}

/// What is written for an aggressor side is read back as the same value.
pub proof fn lemma_aggressor_side_reads_back(value: AggressorSide)
    ensures
        AggressorSide::spec_parse(value.spec_name()) == Some(value),
{
    reveal_strlit("NO_AGGRESSOR");
    reveal_strlit("BUYER");
    reveal_strlit("SELLER");
}

} // verus!
