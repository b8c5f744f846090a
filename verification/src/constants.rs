use vstd::prelude::*;

verus! {

use crate::utils::str_eq;

/// Format tag for TD1 documents: three lines of thirty characters.
pub const MRZ_TYPE1: u8 = 1;

/// Format tag for TD2 documents: two lines of thirty-six characters.
pub const MRZ_TYPE2: u8 = 2;

/// Format tag for TD3 documents: two lines of forty-four characters.
pub const MRZ_TYPE3: u8 = 3;

/// Line width of the TD1 format.
pub const TYPE1_NUMBER_OF_CHARACTERS_PER_LINE: usize = 30;

/// Total character count of a TD1 zone given as one unbroken string.
pub const TYPE1_TOTAL_NUMBER_OF_CHARACTERS: usize = 90;

/// Line width of the TD2 format.
pub const TYPE2_NUMBER_OF_CHARACTERS_PER_LINE: usize = 36;

/// Total character count of a TD2 zone given as one unbroken string.
pub const TYPE2_TOTAL_NUMBER_OF_CHARACTERS: usize = 72;

/// Line width of the TD3 format.
pub const TYPE3_NUMBER_OF_CHARACTERS_PER_LINE: usize = 44;

/// The issuing-state name for a three-letter country code, or `Unknown`.
///
/// The table holds the codes this library resolves; `UTO` is the code the
/// ICAO specimen documents use.
pub open spec fn country_name_of(code: Seq<char>) -> Seq<char> {
    if code == "UTO"@ {
        "Utopia"@
    } else if code == "AUS"@ {
        "Australia"@
    } else if code == "AUT"@ {
        "Austria"@
    } else if code == "BEL"@ {
        "Belgium"@
    } else if code == "BRA"@ {
        "Brazil"@
    } else if code == "CAN"@ {
        "Canada"@
    } else if code == "CHE"@ {
        "Switzerland"@
    } else if code == "CHN"@ {
        "China"@
    } else if code == "CZE"@ {
        "Czechia"@
    } else if code == "D"@ || code == "D<<"@ || code == "DEU"@ {
        "Germany"@
    } else if code == "DNK"@ {
        "Denmark"@
    } else if code == "ESP"@ {
        "Spain"@
    } else if code == "FIN"@ {
        "Finland"@
    } else if code == "FRA"@ {
        "France"@
    } else if code == "GBR"@ {
        "United Kingdom"@
    } else if code == "GRC"@ {
        "Greece"@
    } else if code == "IND"@ {
        "India"@
    } else if code == "IRL"@ {
        "Ireland"@
    } else if code == "ITA"@ {
        "Italy"@
    } else if code == "JPN"@ {
        "Japan"@
    } else if code == "KOR"@ {
        "Republic of Korea"@
    } else if code == "MEX"@ {
        "Mexico"@
    } else if code == "NLD"@ {
        "Netherlands"@
    } else if code == "NOR"@ {
        "Norway"@
    } else if code == "NZL"@ {
        "New Zealand"@
    } else if code == "POL"@ {
        "Poland"@
    } else if code == "PRT"@ {
        "Portugal"@
    } else if code == "SWE"@ {
        "Sweden"@
    } else if code == "TUR"@ {
        "Turkiye"@
    } else if code == "UKR"@ {
        "Ukraine"@
    } else if code == "USA"@ {
        "United States of America"@
    } else {
        "Unknown"@
    }
}

/// Resolves a three-letter issuing-state code to a country name, with
/// `Unknown` as the fallback for codes outside the table.
pub fn country_name(code: &str) -> (r: String)
    ensures
        r@ == country_name_of(code@),
{
    if str_eq(code, "UTO") {
        String::from_str("Utopia")
    } else if str_eq(code, "AUS") {
        String::from_str("Australia")
    } else if str_eq(code, "AUT") {
        String::from_str("Austria")
    } else if str_eq(code, "BEL") {
        String::from_str("Belgium")
    } else if str_eq(code, "BRA") {
        String::from_str("Brazil")
    } else if str_eq(code, "CAN") {
        String::from_str("Canada")
    } else if str_eq(code, "CHE") {
        String::from_str("Switzerland")
    } else if str_eq(code, "CHN") {
        String::from_str("China")
    } else if str_eq(code, "CZE") {
        String::from_str("Czechia")
    } else if str_eq(code, "D") || str_eq(code, "D<<") || str_eq(code, "DEU") {
        String::from_str("Germany")
    } else if str_eq(code, "DNK") {
        String::from_str("Denmark")
    } else if str_eq(code, "ESP") {
        String::from_str("Spain")
    } else if str_eq(code, "FIN") {
        String::from_str("Finland")
    } else if str_eq(code, "FRA") {
        String::from_str("France")
    } else if str_eq(code, "GBR") {
        String::from_str("United Kingdom")
    } else if str_eq(code, "GRC") {
        String::from_str("Greece")
    } else if str_eq(code, "IND") {
        String::from_str("India")
    } else if str_eq(code, "IRL") {
        String::from_str("Ireland")
    } else if str_eq(code, "ITA") {
        String::from_str("Italy")
    } else if str_eq(code, "JPN") {
        String::from_str("Japan")
    } else if str_eq(code, "KOR") {
        String::from_str("Republic of Korea")
    } else if str_eq(code, "MEX") {
        String::from_str("Mexico")
    } else if str_eq(code, "NLD") {
        String::from_str("Netherlands")
    } else if str_eq(code, "NOR") {
        String::from_str("Norway")
    } else if str_eq(code, "NZL") {
        String::from_str("New Zealand")
    } else if str_eq(code, "POL") {
        String::from_str("Poland")
    } else if str_eq(code, "PRT") {
        String::from_str("Portugal")
    } else if str_eq(code, "SWE") {
        String::from_str("Sweden")
    } else if str_eq(code, "TUR") {
        String::from_str("Turkiye")
    } else if str_eq(code, "UKR") {
        String::from_str("Ukraine")
    } else if str_eq(code, "USA") {
        String::from_str("United States of America")
    } else {
        String::from_str("Unknown")
    }
}

} // verus!
