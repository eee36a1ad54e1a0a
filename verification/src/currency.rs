//! ISO 4217 currencies and the number of decimals of their minor unit.

use vstd::prelude::*;

verus! {

/// A currency, by its ISO 4217 code.
#[derive(Clone, Copy, Debug, PartialEq, Eq, Hash, Structural)]
pub enum Currency {
    AED,
    AFN,
    ALL,
    AMD,
    ANG,
    AOA,
    ARS,
    AUD,
    AWG,
    AZN,
    BAM,
    BBD,
    BDT,
    BGN,
    BHD,
    BIF,
    BMD,
    BND,
    BOB,
    BRL,
    BSD,
    BTN,
    BWP,
    BYN,
    BZD,
    CAD,
    CDF,
    CHF,
    CLF,
    CLP,
    CNY,
    COP,
    CRC,
    CUC,
    CUP,
    CVE,
    CZK,
    DJF,
    DKK,
    DOP,
    DZD,
    EGP,
    ERN,
    ETB,
    EUR,
    FJD,
    FKP,
    GBP,
    GEL,
    GHS,
    GIP,
    GMD,
    GNF,
    GTQ,
    GYD,
    HKD,
    HNL,
    HRK,
    HTG,
    HUF,
    IDR,
    ILS,
    INR,
    IQD,
    IRR,
    ISK,
    JMD,
    JOD,
    JPY,
    KES,
    KGS,
    KHR,
    KMF,
    KPW,
    KRW,
    KWD,
    KYD,
    KZT,
    LAK,
    LBP,
    LKR,
    LRD,
    LSL,
    LYD,
    MAD,
    MDL,
    MGA,
    MKD,
    MMK,
    MNT,
    MOP,
    MRU,
    MUR,
    MVR,
    MWK,
    MXN,
    MYR,
    MZN,
    NAD,
    NGN,
    NIO,
    NOK,
    NPR,
    NZD,
    OMR,
    PAB,
    PEN,
    PGK,
    PHP,
    PKR,
    PLN,
    PYG,
    QAR,
    RON,
    RSD,
    RUB,
    RWF,
    SAR,
    SBD,
    SCR,
    SDG,
    SEK,
    SGD,
    SHP,
    SLE,
    SLL,
    SOS,
    SRD,
    SSP,
    STD,
    STN,
    SVC,
    SYP,
    SZL,
    THB,
    TJS,
    TMT,
    TND,
    TOP,
    TRY,
    TTD,
    TWD,
    TZS,
    UAH,
    UGX,
    USD,
    UYU,
    UZS,
    VES,
    VND,
    VUV,
    WST,
    XAF,
    XCD,
    XOF,
    XPF,
    YER,
    ZAR,
    ZMW,
    ZWL,
}

impl Currency {
    /// Whether the currency has no minor unit: an amount in minor units is an
    /// amount in major units.
    pub open spec fn spec_is_zero_decimal_currency(self) -> bool {
        self == Currency::BIF
            || self == Currency::CLP
            || self == Currency::DJF
            || self == Currency::GNF
            || self == Currency::IRR
            || self == Currency::JPY
            || self == Currency::KMF
            || self == Currency::KRW
            || self == Currency::MGA
            || self == Currency::PYG
            || self == Currency::RWF
            || self == Currency::UGX
            || self == Currency::VND
            || self == Currency::VUV
            || self == Currency::XAF
            || self == Currency::XOF
            || self == Currency::XPF
    }

    /// Whether one major unit of the currency is a thousand minor units.
    pub open spec fn spec_is_three_decimal_currency(self) -> bool {
        self == Currency::BHD
            || self == Currency::JOD
            || self == Currency::KWD
            || self == Currency::OMR
            || self == Currency::TND
    }

    /// Whether one major unit of the currency is ten thousand minor units.
    pub open spec fn spec_is_four_decimal_currency(self) -> bool {
        self == Currency::CLF
    }

    /// The number of decimals of the currency's minor unit: 0, 3 or 4 for the
    /// currencies listed as such, 2 for every other.
    pub open spec fn spec_number_of_digits_after_decimal_point(self) -> nat {
        if self.spec_is_zero_decimal_currency() {
            0
        } else if self.spec_is_three_decimal_currency() {
            3
        } else if self.spec_is_four_decimal_currency() {
            4
        } else {
            2
        }
    }

    /// The currency's three-letter code.
    pub open spec fn spec_iso_code(self) -> Seq<char> {
        match self {
            Currency::AED => "AED"@,
            Currency::AFN => "AFN"@,
            Currency::ALL => "ALL"@,
            Currency::AMD => "AMD"@,
            Currency::ANG => "ANG"@,
            Currency::AOA => "AOA"@,
            Currency::ARS => "ARS"@,
            Currency::AUD => "AUD"@,
            Currency::AWG => "AWG"@,
            Currency::AZN => "AZN"@,
            Currency::BAM => "BAM"@,
            Currency::BBD => "BBD"@,
            Currency::BDT => "BDT"@,
            Currency::BGN => "BGN"@,
            Currency::BHD => "BHD"@,
            Currency::BIF => "BIF"@,
            Currency::BMD => "BMD"@,
            Currency::BND => "BND"@,
            Currency::BOB => "BOB"@,
            Currency::BRL => "BRL"@,
            Currency::BSD => "BSD"@,
            Currency::BTN => "BTN"@,
            Currency::BWP => "BWP"@,
            Currency::BYN => "BYN"@,
            Currency::BZD => "BZD"@,
            Currency::CAD => "CAD"@,
            Currency::CDF => "CDF"@,
            Currency::CHF => "CHF"@,
            Currency::CLF => "CLF"@,
            Currency::CLP => "CLP"@,
            Currency::CNY => "CNY"@,
            Currency::COP => "COP"@,
            Currency::CRC => "CRC"@,
            Currency::CUC => "CUC"@,
            Currency::CUP => "CUP"@,
            Currency::CVE => "CVE"@,
            Currency::CZK => "CZK"@,
            Currency::DJF => "DJF"@,
            Currency::DKK => "DKK"@,
            Currency::DOP => "DOP"@,
            Currency::DZD => "DZD"@,
            Currency::EGP => "EGP"@,
            Currency::ERN => "ERN"@,
            Currency::ETB => "ETB"@,
            Currency::EUR => "EUR"@,
            Currency::FJD => "FJD"@,
            Currency::FKP => "FKP"@,
            Currency::GBP => "GBP"@,
            Currency::GEL => "GEL"@,
            Currency::GHS => "GHS"@,
            Currency::GIP => "GIP"@,
            Currency::GMD => "GMD"@,
            Currency::GNF => "GNF"@,
            Currency::GTQ => "GTQ"@,
            Currency::GYD => "GYD"@,
            Currency::HKD => "HKD"@,
            Currency::HNL => "HNL"@,
            Currency::HRK => "HRK"@,
            Currency::HTG => "HTG"@,
            Currency::HUF => "HUF"@,
            Currency::IDR => "IDR"@,
            Currency::ILS => "ILS"@,
            Currency::INR => "INR"@,
            Currency::IQD => "IQD"@,
            Currency::IRR => "IRR"@,
            Currency::ISK => "ISK"@,
            Currency::JMD => "JMD"@,
            Currency::JOD => "JOD"@,
            Currency::JPY => "JPY"@,
            Currency::KES => "KES"@,
            Currency::KGS => "KGS"@,
            Currency::KHR => "KHR"@,
            Currency::KMF => "KMF"@,
            Currency::KPW => "KPW"@,
            Currency::KRW => "KRW"@,
            Currency::KWD => "KWD"@,
            Currency::KYD => "KYD"@,
            Currency::KZT => "KZT"@,
            Currency::LAK => "LAK"@,
            Currency::LBP => "LBP"@,
            Currency::LKR => "LKR"@,
            Currency::LRD => "LRD"@,
            Currency::LSL => "LSL"@,
            Currency::LYD => "LYD"@,
            Currency::MAD => "MAD"@,
            Currency::MDL => "MDL"@,
            Currency::MGA => "MGA"@,
            Currency::MKD => "MKD"@,
            Currency::MMK => "MMK"@,
            Currency::MNT => "MNT"@,
            Currency::MOP => "MOP"@,
            Currency::MRU => "MRU"@,
            Currency::MUR => "MUR"@,
            Currency::MVR => "MVR"@,
            Currency::MWK => "MWK"@,
            Currency::MXN => "MXN"@,
            Currency::MYR => "MYR"@,
            Currency::MZN => "MZN"@,
            Currency::NAD => "NAD"@,
            Currency::NGN => "NGN"@,
            Currency::NIO => "NIO"@,
            Currency::NOK => "NOK"@,
            Currency::NPR => "NPR"@,
            Currency::NZD => "NZD"@,
            Currency::OMR => "OMR"@,
            Currency::PAB => "PAB"@,
            Currency::PEN => "PEN"@,
            Currency::PGK => "PGK"@,
            Currency::PHP => "PHP"@,
            Currency::PKR => "PKR"@,
            Currency::PLN => "PLN"@,
            Currency::PYG => "PYG"@,
            Currency::QAR => "QAR"@,
            Currency::RON => "RON"@,
            Currency::RSD => "RSD"@,
            Currency::RUB => "RUB"@,
            Currency::RWF => "RWF"@,
            Currency::SAR => "SAR"@,
            Currency::SBD => "SBD"@,
            Currency::SCR => "SCR"@,
            Currency::SDG => "SDG"@,
            Currency::SEK => "SEK"@,
            Currency::SGD => "SGD"@,
            Currency::SHP => "SHP"@,
            Currency::SLE => "SLE"@,
            Currency::SLL => "SLL"@,
            Currency::SOS => "SOS"@,
            Currency::SRD => "SRD"@,
            Currency::SSP => "SSP"@,
            Currency::STD => "STD"@,
            Currency::STN => "STN"@,
            Currency::SVC => "SVC"@,
            Currency::SYP => "SYP"@,
            Currency::SZL => "SZL"@,
            Currency::THB => "THB"@,
            Currency::TJS => "TJS"@,
            Currency::TMT => "TMT"@,
            Currency::TND => "TND"@,
            Currency::TOP => "TOP"@,
            Currency::TRY => "TRY"@,
            Currency::TTD => "TTD"@,
            Currency::TWD => "TWD"@,
            Currency::TZS => "TZS"@,
            Currency::UAH => "UAH"@,
            Currency::UGX => "UGX"@,
            Currency::USD => "USD"@,
            Currency::UYU => "UYU"@,
            Currency::UZS => "UZS"@,
            Currency::VES => "VES"@,
            Currency::VND => "VND"@,
            Currency::VUV => "VUV"@,
            Currency::WST => "WST"@,
            Currency::XAF => "XAF"@,
            Currency::XCD => "XCD"@,
            Currency::XOF => "XOF"@,
            Currency::XPF => "XPF"@,
            Currency::YER => "YER"@,
            Currency::ZAR => "ZAR"@,
            Currency::ZMW => "ZMW"@,
            Currency::ZWL => "ZWL"@,
        }
    }

    /// Tells whether the currency has no minor unit.
    pub fn is_zero_decimal_currency(self) -> (result: bool)
        ensures
            result == self.spec_is_zero_decimal_currency(),
    {
        match self {
            Currency::BIF
            | Currency::CLP
            | Currency::DJF
            | Currency::GNF
            | Currency::IRR
            | Currency::JPY
            | Currency::KMF
            | Currency::KRW
            | Currency::MGA
            | Currency::PYG
            | Currency::RWF
            | Currency::UGX
            | Currency::VND
            | Currency::VUV
            | Currency::XAF
            | Currency::XOF
            | Currency::XPF => true,
            _ => false,
        }
    }

    /// Tells whether one major unit is a thousand minor units.
    pub fn is_three_decimal_currency(self) -> (result: bool)
        ensures
            result == self.spec_is_three_decimal_currency(),
    {
        match self {
            Currency::BHD | Currency::JOD | Currency::KWD | Currency::OMR | Currency::TND => true,
            _ => false,
        }
    }

    /// Tells whether one major unit is ten thousand minor units.
    pub fn is_four_decimal_currency(self) -> (result: bool)
        ensures
            result == self.spec_is_four_decimal_currency(),
    {
        match self {
            Currency::CLF => true,
            _ => false,
        }
    }

    /// Returns the number of decimals of the currency's minor unit.
    pub fn number_of_digits_after_decimal_point(self) -> (result: u8)
        ensures
            result == self.spec_number_of_digits_after_decimal_point(),
            result <= 4,
    {
        if self.is_zero_decimal_currency() {
            0
        } else if self.is_three_decimal_currency() {
            3
        } else if self.is_four_decimal_currency() {
            4
        } else {
            2
        }
    }

    /// Returns the currency's three-letter code.
    pub fn iso_code(self) -> (result: &'static str)
        ensures
            result@ == self.spec_iso_code(),
    {
        match self {
            Currency::AED => "AED",
            Currency::AFN => "AFN",
            Currency::ALL => "ALL",
            Currency::AMD => "AMD",
            Currency::ANG => "ANG",
            Currency::AOA => "AOA",
            Currency::ARS => "ARS",
            Currency::AUD => "AUD",
            Currency::AWG => "AWG",
            Currency::AZN => "AZN",
            Currency::BAM => "BAM",
            Currency::BBD => "BBD",
            Currency::BDT => "BDT",
            Currency::BGN => "BGN",
            Currency::BHD => "BHD",
            Currency::BIF => "BIF",
            Currency::BMD => "BMD",
            Currency::BND => "BND",
            Currency::BOB => "BOB",
            Currency::BRL => "BRL",
            Currency::BSD => "BSD",
            Currency::BTN => "BTN",
            Currency::BWP => "BWP",
            Currency::BYN => "BYN",
            Currency::BZD => "BZD",
            Currency::CAD => "CAD",
            Currency::CDF => "CDF",
            Currency::CHF => "CHF",
            Currency::CLF => "CLF",
            Currency::CLP => "CLP",
            Currency::CNY => "CNY",
            Currency::COP => "COP",
            Currency::CRC => "CRC",
            Currency::CUC => "CUC",
            Currency::CUP => "CUP",
            Currency::CVE => "CVE",
            Currency::CZK => "CZK",
            Currency::DJF => "DJF",
            Currency::DKK => "DKK",
            Currency::DOP => "DOP",
            Currency::DZD => "DZD",
            Currency::EGP => "EGP",
            Currency::ERN => "ERN",
            Currency::ETB => "ETB",
            Currency::EUR => "EUR",
            Currency::FJD => "FJD",
            Currency::FKP => "FKP",
            Currency::GBP => "GBP",
            Currency::GEL => "GEL",
            Currency::GHS => "GHS",
            Currency::GIP => "GIP",
            Currency::GMD => "GMD",
            Currency::GNF => "GNF",
            Currency::GTQ => "GTQ",
            Currency::GYD => "GYD",
            Currency::HKD => "HKD",
            Currency::HNL => "HNL",
            Currency::HRK => "HRK",
            Currency::HTG => "HTG",
            Currency::HUF => "HUF",
            Currency::IDR => "IDR",
            Currency::ILS => "ILS",
            Currency::INR => "INR",
            Currency::IQD => "IQD",
            Currency::IRR => "IRR",
            Currency::ISK => "ISK",
            Currency::JMD => "JMD",
            Currency::JOD => "JOD",
            Currency::JPY => "JPY",
            Currency::KES => "KES",
            Currency::KGS => "KGS",
            Currency::KHR => "KHR",
            Currency::KMF => "KMF",
            Currency::KPW => "KPW",
            Currency::KRW => "KRW",
            Currency::KWD => "KWD",
            Currency::KYD => "KYD",
            Currency::KZT => "KZT",
            Currency::LAK => "LAK",
            Currency::LBP => "LBP",
            Currency::LKR => "LKR",
            Currency::LRD => "LRD",
            Currency::LSL => "LSL",
            Currency::LYD => "LYD",
            Currency::MAD => "MAD",
            Currency::MDL => "MDL",
            Currency::MGA => "MGA",
            Currency::MKD => "MKD",
            Currency::MMK => "MMK",
            Currency::MNT => "MNT",
            Currency::MOP => "MOP",
            Currency::MRU => "MRU",
            Currency::MUR => "MUR",
            Currency::MVR => "MVR",
            Currency::MWK => "MWK",
            Currency::MXN => "MXN",
            Currency::MYR => "MYR",
            Currency::MZN => "MZN",
            Currency::NAD => "NAD",
            Currency::NGN => "NGN",
            Currency::NIO => "NIO",
            Currency::NOK => "NOK",
            Currency::NPR => "NPR",
            Currency::NZD => "NZD",
            Currency::OMR => "OMR",
            Currency::PAB => "PAB",
            Currency::PEN => "PEN",
            Currency::PGK => "PGK",
            Currency::PHP => "PHP",
            Currency::PKR => "PKR",
            Currency::PLN => "PLN",
            Currency::PYG => "PYG",
            Currency::QAR => "QAR",
            Currency::RON => "RON",
            Currency::RSD => "RSD",
            Currency::RUB => "RUB",
            Currency::RWF => "RWF",
            Currency::SAR => "SAR",
            Currency::SBD => "SBD",
            Currency::SCR => "SCR",
            Currency::SDG => "SDG",
            Currency::SEK => "SEK",
            Currency::SGD => "SGD",
            Currency::SHP => "SHP",
            Currency::SLE => "SLE",
            Currency::SLL => "SLL",
            Currency::SOS => "SOS",
            Currency::SRD => "SRD",
            Currency::SSP => "SSP",
            Currency::STD => "STD",
            Currency::STN => "STN",
            Currency::SVC => "SVC",
            Currency::SYP => "SYP",
            Currency::SZL => "SZL",
            Currency::THB => "THB",
            Currency::TJS => "TJS",
            Currency::TMT => "TMT",
            Currency::TND => "TND",
            Currency::TOP => "TOP",
            Currency::TRY => "TRY",
            Currency::TTD => "TTD",
            Currency::TWD => "TWD",
            Currency::TZS => "TZS",
            Currency::UAH => "UAH",
            Currency::UGX => "UGX",
            Currency::USD => "USD",
            Currency::UYU => "UYU",
            Currency::UZS => "UZS",
            Currency::VES => "VES",
            Currency::VND => "VND",
            Currency::VUV => "VUV",
            Currency::WST => "WST",
            Currency::XAF => "XAF",
            Currency::XCD => "XCD",
            Currency::XOF => "XOF",
            Currency::XPF => "XPF",
            Currency::YER => "YER",
            Currency::ZAR => "ZAR",
            Currency::ZMW => "ZMW",
            Currency::ZWL => "ZWL",
        }
    }
}

} // verus!
