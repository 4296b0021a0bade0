//! The text renderer: one line per event, language-selectable, with the
//! numeric parts rendered through a small decimal formatter.

use vstd::prelude::*;

use crate::calendar::{TS_MAX, spec_civil_ymd, civil_ymd};
use crate::types::{
    CandleLighting, Chol, Event, Language, MinorHoliday, Name, Parsha, SpecialParsha, StudyUnit,
    TorahReading, YomTov,
};

verus! {

/// The decimal digit character of a value below ten.
pub open spec fn spec_digit(d: int) -> char {
    if d == 0 { '0' }
    else if d == 1 { '1' }
    else if d == 2 { '2' }
    else if d == 3 { '3' }
    else if d == 4 { '4' }
    else if d == 5 { '5' }
    else if d == 6 { '6' }
    else if d == 7 { '7' }
    else if d == 8 { '8' }
    else { '9' }
}

/// The decimal digits of a number, most significant first, no leading
/// zeroes (a single zero for zero itself).
pub open spec fn spec_dec_digits(n: nat) -> Seq<char>
    decreases n,
{
    if n < 10 {
        seq![spec_digit(n as int)]
    } else {
        spec_dec_digits(n / 10) + seq![spec_digit((n % 10) as int)]
    }
}

/// Decimal digits padded to at least two places, for minutes.
pub open spec fn spec_dec2(n: nat) -> Seq<char> {
    if n < 10 {
        "0"@ + spec_dec_digits(n)
    } else {
        spec_dec_digits(n)
    }
}

/// Relies on `itoa::Buffer::format`: writes the decimal digits of an
/// unsigned integer, most significant first, exactly as `spec_dec_digits`
/// lays them out.
#[verifier::external_body]
pub fn u64_string(n: u64) -> (r: String)
    ensures
        r@ == spec_dec_digits(n as nat),
{
    let mut b = itoa::Buffer::new();
    b.format(n).to_string()
}

/// The English ordinal suffix of a number.
pub open spec fn spec_ordinal_suffix(k: int) -> Seq<char> {
    if k % 10 == 1 && k % 100 != 11 {
        "st"@
    } else if k % 10 == 2 && k % 100 != 12 {
        "nd"@
    } else if k % 10 == 3 && k % 100 != 13 {
        "rd"@
    } else {
        "th"@
    }
}

/// Executable form of `spec_ordinal_suffix`.
pub fn ordinal_suffix(k: u64) -> (r: &'static str)
    ensures
        r@ == spec_ordinal_suffix(k as int),
{
    if k % 10 == 1 && k % 100 != 11 {
        "st"
    } else if k % 10 == 2 && k % 100 != 12 {
        "nd"
    } else if k % 10 == 3 && k % 100 != 13 {
        "rd"
    } else {
        "th"
    }
}

/// The display text of the k-th day of the Omer count.
pub open spec fn spec_omer_label(k: nat) -> Seq<char> {
    spec_dec_digits(k) + spec_ordinal_suffix(k as int) + " day of the Omer"@
}

/// Executable form of `spec_omer_label`.
pub fn omer_label(k: u8) -> (r: String)
    ensures
        r@ == spec_omer_label(k as nat),
{
    let mut s = u64_string(k as u64);
    s.append(ordinal_suffix(k as u64));
    s.append(" day of the Omer");
    s
}

/// The display text of a `YomTov` label in each language.
#[verifier::opaque]
pub open spec fn spec_yomtov_label(v: YomTov, lang: Language) -> Seq<char> {
    match lang {
        Language::English => match v {
            YomTov::RoshHashanah1 => "1st day of Rosh Hashanah"@,
            YomTov::RoshHashanah2 => "2nd day of Rosh Hashanah"@,
            YomTov::YomKippur => "Yom Kippur"@,
            YomTov::Sukkos1 => "1st day of Sukkos"@,
            YomTov::Sukkos2 => "2nd day of Sukkos"@,
            YomTov::Sukkos3 => "3rd day of Sukkos"@,
            YomTov::Sukkos4 => "4th day of Sukkos"@,
            YomTov::Sukkos5 => "5th day of Sukkos"@,
            YomTov::Sukkos6 => "6th day of Sukkos"@,
            YomTov::Sukkos7 => "7th day of Sukkos"@,
            YomTov::ShminiAtzeres => "Shmini Atzeres"@,
            YomTov::SimchasTorah => "Simchas Torah"@,
            YomTov::Pesach1 => "1st day of Pesach"@,
            YomTov::Pesach2 => "2nd day of Pesach"@,
            YomTov::Pesach3 => "3rd day of Pesach"@,
            YomTov::Pesach4 => "4th day of Pesach"@,
            YomTov::Pesach5 => "5th day of Pesach"@,
            YomTov::Pesach6 => "6th day of Pesach"@,
            YomTov::Pesach7 => "7th day of Pesach"@,
            YomTov::Pesach8 => "8th day of Pesach"@,
            YomTov::Shavuos1 => "1st day of Shavuos"@,
            YomTov::Shavuos2 => "2nd day of Shavuos"@,
        },
        Language::Hebrew => match v {
            YomTov::RoshHashanah1 => "יןם א של ראש השנה"@,
            YomTov::RoshHashanah2 => "יןם ב של ראש השנה"@,
            YomTov::YomKippur => "יום כיפור"@,
            YomTov::Sukkos1 => "יום א של חג הסוכות"@,
            YomTov::Sukkos2 => "יום ב של חג הסוכות"@,
            YomTov::Sukkos3 => "יום ג  של חג הסוכות"@,
            YomTov::Sukkos4 => "יום ד של חג הסוכות"@,
            YomTov::Sukkos5 => "יום ה של חג הסוכות"@,
            YomTov::Sukkos6 => "יום ו של חג הסוכות"@,
            YomTov::Sukkos7 => "יום ז של חג הסוכות"@,
            YomTov::ShminiAtzeres => "שמיני עצרת"@,
            YomTov::SimchasTorah => "שמחת תורה"@,
            YomTov::Pesach1 => "יום א של חג הפסח"@,
            YomTov::Pesach2 => "יום ב של חג הפסח"@,
            YomTov::Pesach3 => "יום ג של חג הפסח"@,
            YomTov::Pesach4 => "יום ד של חג הפסח"@,
            YomTov::Pesach5 => "יום ה של חג הפסח"@,
            YomTov::Pesach6 => "יום ו של חג הפסח"@,
            YomTov::Pesach7 => "יום ז של חג הפסח"@,
            YomTov::Pesach8 => "יום ח של חג הפסח"@,
            YomTov::Shavuos1 => "יום א של חג השבועות"@,
            YomTov::Shavuos2 => "יום ב של חג השבועות"@,
        },
    }
}

/// Executable form of `spec_yomtov_label`.
pub fn yomtov_label(v: YomTov, lang: Language) -> (r: &'static str)
    ensures
        r@ == spec_yomtov_label(v, lang),
{
    proof {
        reveal(spec_yomtov_label);
    }
    match lang {
        Language::English => match v {
            YomTov::RoshHashanah1 => "1st day of Rosh Hashanah",
            YomTov::RoshHashanah2 => "2nd day of Rosh Hashanah",
            YomTov::YomKippur => "Yom Kippur",
            YomTov::Sukkos1 => "1st day of Sukkos",
            YomTov::Sukkos2 => "2nd day of Sukkos",
            YomTov::Sukkos3 => "3rd day of Sukkos",
            YomTov::Sukkos4 => "4th day of Sukkos",
            YomTov::Sukkos5 => "5th day of Sukkos",
            YomTov::Sukkos6 => "6th day of Sukkos",
            YomTov::Sukkos7 => "7th day of Sukkos",
            YomTov::ShminiAtzeres => "Shmini Atzeres",
            YomTov::SimchasTorah => "Simchas Torah",
            YomTov::Pesach1 => "1st day of Pesach",
            YomTov::Pesach2 => "2nd day of Pesach",
            YomTov::Pesach3 => "3rd day of Pesach",
            YomTov::Pesach4 => "4th day of Pesach",
            YomTov::Pesach5 => "5th day of Pesach",
            YomTov::Pesach6 => "6th day of Pesach",
            YomTov::Pesach7 => "7th day of Pesach",
            YomTov::Pesach8 => "8th day of Pesach",
            YomTov::Shavuos1 => "1st day of Shavuos",
            YomTov::Shavuos2 => "2nd day of Shavuos",
        },
        Language::Hebrew => match v {
            YomTov::RoshHashanah1 => "יןם א של ראש השנה",
            YomTov::RoshHashanah2 => "יןם ב של ראש השנה",
            YomTov::YomKippur => "יום כיפור",
            YomTov::Sukkos1 => "יום א של חג הסוכות",
            YomTov::Sukkos2 => "יום ב של חג הסוכות",
            YomTov::Sukkos3 => "יום ג  של חג הסוכות",
            YomTov::Sukkos4 => "יום ד של חג הסוכות",
            YomTov::Sukkos5 => "יום ה של חג הסוכות",
            YomTov::Sukkos6 => "יום ו של חג הסוכות",
            YomTov::Sukkos7 => "יום ז של חג הסוכות",
            YomTov::ShminiAtzeres => "שמיני עצרת",
            YomTov::SimchasTorah => "שמחת תורה",
            YomTov::Pesach1 => "יום א של חג הפסח",
            YomTov::Pesach2 => "יום ב של חג הפסח",
            YomTov::Pesach3 => "יום ג של חג הפסח",
            YomTov::Pesach4 => "יום ד של חג הפסח",
            YomTov::Pesach5 => "יום ה של חג הפסח",
            YomTov::Pesach6 => "יום ו של חג הפסח",
            YomTov::Pesach7 => "יום ז של חג הפסח",
            YomTov::Pesach8 => "יום ח של חג הפסח",
            YomTov::Shavuos1 => "יום א של חג השבועות",
            YomTov::Shavuos2 => "יום ב של חג השבועות",
        },
    }
}

/// The display text of a `Chol` label in each language.
#[verifier::opaque]
pub open spec fn spec_chol_label(v: Chol, lang: Language) -> Seq<char> {
    match lang {
        Language::English => match v {
            Chol::TzomGedalia => "Tzom Gedalia"@,
            Chol::RoshChodeshCheshvan1 => "1st day of Rosh Chodesh Cheshvan"@,
            Chol::RoshChodeshCheshvan2 => "2nd day of Rosh Chodesh Cheshvan"@,
            Chol::Chanukah1 => "1st day of Chanukah"@,
            Chol::Chanukah2 => "2nd day of Chanukah"@,
            Chol::Chanukah3 => "3rd day of Chanukah"@,
            Chol::Chanukah4 => "4rd day of Chanukah"@,
            Chol::Chanukah5 => "5rd day of Chanukah"@,
            Chol::Chanukah6 => "6rd day of Chanukah"@,
            Chol::Chanukah7 => "7rd day of Chanukah"@,
            Chol::Chanukah8 => "8rd day of Chanukah"@,
            Chol::TenTeves => "Tenth of Teves"@,
            Chol::RoshChodeshShvat => "Rosh Chodesh Shvat"@,
            Chol::RoshChodeshNissan => "Rosh Chodesh Nissan"@,
            Chol::RoshChodeshIyar1 => "1st day of Rosh Chodesh Iyar"@,
            Chol::RoshChodeshIyar2 => "2nd day of Rosh Chodesh Iyar"@,
            Chol::RoshChodeshSivan => "Rosh Chodesh Sivan"@,
            Chol::RoshChodeshTammuz1 => "1st day of Rosh Chodesh Tammuz"@,
            Chol::RoshChodeshTammuz2 => "2nd day of Rosh Chodesh Tammuz"@,
            Chol::RoshChodeshAv => "Rosh Chodesh Av"@,
            Chol::RoshChodeshElul1 => "1st day of Rosh Chodesh Elul"@,
            Chol::RoshChodeshElul2 => "2nd day of Rosh Chodesh Elul"@,
            Chol::RoshChodeshKislev1 => "1st day of Rosh Chodesh Kislev"@,
            Chol::RoshChodeshKislev2 => "2nd day of Rosh Chodesh Kislev"@,
            Chol::RoshChodeshKislev => "Rosh Chodesh Kislev"@,
            Chol::RoshChodeshTeves1 => "1st day of Rosh Chodesh Teves"@,
            Chol::RoshChodeshTeves2 => "2nd day of Rosh Chodesh Teves"@,
            Chol::RoshChodeshTeves => "Rosh Chodesh Teves"@,
            Chol::RoshChodeshAdar1 => "1st day of Rosh Chodesh Adar"@,
            Chol::RoshChodeshAdar2 => "2nd day of Rosh Chodesh Adar"@,
            Chol::TaanisEsther => "Taanis Esther"@,
            Chol::Purim => "Purim"@,
            Chol::ShushanPurim => "Shushan Purim"@,
            Chol::RoshChodeshAdarRishon1 => "1st day of Rosh Chodesh Adar Rishon"@,
            Chol::RoshChodeshAdarRishon2 => "2nd day of Rosh Chodesh Adar Rishon"@,
            Chol::RoshChodeshAdarSheni1 => "1st day of Rosh Chodesh Adar Sheni"@,
            Chol::RoshChodeshAdarSheni2 => "2nd day of Rosh Chodesh Adar Sheni"@,
            Chol::SeventeenTammuz => "Seventeenth of Tammuz"@,
            Chol::NineAv => "Ninth of Av"@,
        },
        Language::Hebrew => match v {
            Chol::TzomGedalia => "צום גדליה"@,
            Chol::RoshChodeshCheshvan1 => "יום א של ראש חודש חשון"@,
            Chol::RoshChodeshCheshvan2 => "יום ב של ראש חודש חשון"@,
            Chol::Chanukah1 => "יום א של חנוכה"@,
            Chol::Chanukah2 => "יום ב של חנוכה"@,
            Chol::Chanukah3 => "יום ג של חנוכה"@,
            Chol::Chanukah4 => "יום ד של חנוכה"@,
            Chol::Chanukah5 => "יום ה של חנוכה"@,
            Chol::Chanukah6 => "יום ו של חנוכה"@,
            Chol::Chanukah7 => "יום ז של חנוכה"@,
            Chol::Chanukah8 => "יום ח של חנוכה"@,
            Chol::TenTeves => "י' טבת"@,
            Chol::RoshChodeshShvat => "ראש חודש שבט"@,
            Chol::RoshChodeshNissan => "ראש חדש ניסן"@,
            Chol::RoshChodeshIyar1 => "יום א של ראש חודש אייר"@,
            Chol::RoshChodeshIyar2 => "יום ב של ראש חודש אייר"@,
            Chol::RoshChodeshSivan => "ראש חדש סיון"@,
            Chol::RoshChodeshTammuz1 => "יום א של ראש חודש תמוז"@,
            Chol::RoshChodeshTammuz2 => "יום ב של ראש חודש תמוז"@,
            Chol::RoshChodeshAv => "ראש חודש אב"@,
            Chol::RoshChodeshElul1 => "יום א של ראש חודש אלול"@,
            Chol::RoshChodeshElul2 => "יום ב של ראש חודש אלול"@,
            Chol::RoshChodeshKislev1 => "יום א של ראש חודש כסלו"@,
            Chol::RoshChodeshKislev2 => "יום ב של ראש חודש כסלו"@,
            Chol::RoshChodeshKislev => "ראש חודש כסלו"@,
            Chol::RoshChodeshTeves1 => "יום א של ראש חודש טבת"@,
            Chol::RoshChodeshTeves2 => "יום ב של ראש חודש טבת"@,
            Chol::RoshChodeshTeves => "ראש חודש טבת"@,
            Chol::RoshChodeshAdar1 => "יום א של ראש חודש אדר"@,
            Chol::RoshChodeshAdar2 => "יום ב של ראש חודש אדר"@,
            Chol::TaanisEsther => "תענית אסתר"@,
            Chol::Purim => "פורים"@,
            Chol::ShushanPurim => "שושן פורים"@,
            Chol::RoshChodeshAdarRishon1 => "יום א של ראש חודש אדר ראשון"@,
            Chol::RoshChodeshAdarRishon2 => "יום ב של ראש חודש אדר ראשון"@,
            Chol::RoshChodeshAdarSheni1 => "יום א של ראש חודש אדר שני"@,
            Chol::RoshChodeshAdarSheni2 => "יום ב של ראש חודש אדר שני"@,
            Chol::SeventeenTammuz => "שבעה עשר בתמוז"@,
            Chol::NineAv => "תשעה באב"@,
        },
    }
}

/// Executable form of `spec_chol_label`.
pub fn chol_label(v: Chol, lang: Language) -> (r: &'static str)
    ensures
        r@ == spec_chol_label(v, lang),
{
    proof {
        reveal(spec_chol_label);
    }
    match lang {
        Language::English => match v {
            Chol::TzomGedalia => "Tzom Gedalia",
            Chol::RoshChodeshCheshvan1 => "1st day of Rosh Chodesh Cheshvan",
            Chol::RoshChodeshCheshvan2 => "2nd day of Rosh Chodesh Cheshvan",
            Chol::Chanukah1 => "1st day of Chanukah",
            Chol::Chanukah2 => "2nd day of Chanukah",
            Chol::Chanukah3 => "3rd day of Chanukah",
            Chol::Chanukah4 => "4rd day of Chanukah",
            Chol::Chanukah5 => "5rd day of Chanukah",
            Chol::Chanukah6 => "6rd day of Chanukah",
            Chol::Chanukah7 => "7rd day of Chanukah",
            Chol::Chanukah8 => "8rd day of Chanukah",
            Chol::TenTeves => "Tenth of Teves",
            Chol::RoshChodeshShvat => "Rosh Chodesh Shvat",
            Chol::RoshChodeshNissan => "Rosh Chodesh Nissan",
            Chol::RoshChodeshIyar1 => "1st day of Rosh Chodesh Iyar",
            Chol::RoshChodeshIyar2 => "2nd day of Rosh Chodesh Iyar",
            Chol::RoshChodeshSivan => "Rosh Chodesh Sivan",
            Chol::RoshChodeshTammuz1 => "1st day of Rosh Chodesh Tammuz",
            Chol::RoshChodeshTammuz2 => "2nd day of Rosh Chodesh Tammuz",
            Chol::RoshChodeshAv => "Rosh Chodesh Av",
            Chol::RoshChodeshElul1 => "1st day of Rosh Chodesh Elul",
            Chol::RoshChodeshElul2 => "2nd day of Rosh Chodesh Elul",
            Chol::RoshChodeshKislev1 => "1st day of Rosh Chodesh Kislev",
            Chol::RoshChodeshKislev2 => "2nd day of Rosh Chodesh Kislev",
            Chol::RoshChodeshKislev => "Rosh Chodesh Kislev",
            Chol::RoshChodeshTeves1 => "1st day of Rosh Chodesh Teves",
            Chol::RoshChodeshTeves2 => "2nd day of Rosh Chodesh Teves",
            Chol::RoshChodeshTeves => "Rosh Chodesh Teves",
            Chol::RoshChodeshAdar1 => "1st day of Rosh Chodesh Adar",
            Chol::RoshChodeshAdar2 => "2nd day of Rosh Chodesh Adar",
            Chol::TaanisEsther => "Taanis Esther",
            Chol::Purim => "Purim",
            Chol::ShushanPurim => "Shushan Purim",
            Chol::RoshChodeshAdarRishon1 => "1st day of Rosh Chodesh Adar Rishon",
            Chol::RoshChodeshAdarRishon2 => "2nd day of Rosh Chodesh Adar Rishon",
            Chol::RoshChodeshAdarSheni1 => "1st day of Rosh Chodesh Adar Sheni",
            Chol::RoshChodeshAdarSheni2 => "2nd day of Rosh Chodesh Adar Sheni",
            Chol::SeventeenTammuz => "Seventeenth of Tammuz",
            Chol::NineAv => "Ninth of Av",
        },
        Language::Hebrew => match v {
            Chol::TzomGedalia => "צום גדליה",
            Chol::RoshChodeshCheshvan1 => "יום א של ראש חודש חשון",
            Chol::RoshChodeshCheshvan2 => "יום ב של ראש חודש חשון",
            Chol::Chanukah1 => "יום א של חנוכה",
            Chol::Chanukah2 => "יום ב של חנוכה",
            Chol::Chanukah3 => "יום ג של חנוכה",
            Chol::Chanukah4 => "יום ד של חנוכה",
            Chol::Chanukah5 => "יום ה של חנוכה",
            Chol::Chanukah6 => "יום ו של חנוכה",
            Chol::Chanukah7 => "יום ז של חנוכה",
            Chol::Chanukah8 => "יום ח של חנוכה",
            Chol::TenTeves => "י' טבת",
            Chol::RoshChodeshShvat => "ראש חודש שבט",
            Chol::RoshChodeshNissan => "ראש חדש ניסן",
            Chol::RoshChodeshIyar1 => "יום א של ראש חודש אייר",
            Chol::RoshChodeshIyar2 => "יום ב של ראש חודש אייר",
            Chol::RoshChodeshSivan => "ראש חדש סיון",
            Chol::RoshChodeshTammuz1 => "יום א של ראש חודש תמוז",
            Chol::RoshChodeshTammuz2 => "יום ב של ראש חודש תמוז",
            Chol::RoshChodeshAv => "ראש חודש אב",
            Chol::RoshChodeshElul1 => "יום א של ראש חודש אלול",
            Chol::RoshChodeshElul2 => "יום ב של ראש חודש אלול",
            Chol::RoshChodeshKislev1 => "יום א של ראש חודש כסלו",
            Chol::RoshChodeshKislev2 => "יום ב של ראש חודש כסלו",
            Chol::RoshChodeshKislev => "ראש חודש כסלו",
            Chol::RoshChodeshTeves1 => "יום א של ראש חודש טבת",
            Chol::RoshChodeshTeves2 => "יום ב של ראש חודש טבת",
            Chol::RoshChodeshTeves => "ראש חודש טבת",
            Chol::RoshChodeshAdar1 => "יום א של ראש חודש אדר",
            Chol::RoshChodeshAdar2 => "יום ב של ראש חודש אדר",
            Chol::TaanisEsther => "תענית אסתר",
            Chol::Purim => "פורים",
            Chol::ShushanPurim => "שושן פורים",
            Chol::RoshChodeshAdarRishon1 => "יום א של ראש חודש אדר ראשון",
            Chol::RoshChodeshAdarRishon2 => "יום ב של ראש חודש אדר ראשון",
            Chol::RoshChodeshAdarSheni1 => "יום א של ראש חודש אדר שני",
            Chol::RoshChodeshAdarSheni2 => "יום ב של ראש חודש אדר שני",
            Chol::SeventeenTammuz => "שבעה עשר בתמוז",
            Chol::NineAv => "תשעה באב",
        },
    }
}

/// The display text of a `Parsha` label in each language.
#[verifier::opaque]
pub open spec fn spec_parsha_label(v: Parsha, lang: Language) -> Seq<char> {
    match lang {
        Language::English => match v {
            Parsha::Vayelech => "Vayelech"@,
            Parsha::Haazinu => "Haazina"@,
            Parsha::Bereishis => "Bereishis"@,
            Parsha::Noach => "Noach"@,
            Parsha::LechLecha => "Lech Lecha"@,
            Parsha::Vayeira => "Vayeira"@,
            Parsha::ChayeiSara => "Chayei Sarah"@,
            Parsha::Toldos => "Toldos"@,
            Parsha::Vayetzei => "Vayetzei"@,
            Parsha::Vayishlach => "Vayishlach"@,
            Parsha::Vayeshev => "Vayeshev"@,
            Parsha::Miketz => "Miketz"@,
            Parsha::Vayigash => "Vayigash"@,
            Parsha::Vayechi => "Vayechi"@,
            Parsha::Shemos => "Shemos"@,
            Parsha::Vaeira => "Vaeira"@,
            Parsha::Bo => "Bo"@,
            Parsha::Beshalach => "Beshalach"@,
            Parsha::Yisro => "Yisro"@,
            Parsha::Mishpatim => "Mishpatim"@,
            Parsha::Terumah => "Terumah"@,
            Parsha::Tetzaveh => "Tetzaveh"@,
            Parsha::KiSisa => "Ki Sisa"@,
            Parsha::VayakhelPikudei => "Vayakhel/Pikudei"@,
            Parsha::Vayakhel => "Vayekhel"@,
            Parsha::Pikudei => "Pikudei"@,
            Parsha::Vayikra => "Vayikra"@,
            Parsha::Tzav => "Tzav"@,
            Parsha::Shemini => "Shemini"@,
            Parsha::TazriyaMetzorah => "Tazriya/Metzorah"@,
            Parsha::Tazriya => "Tazriya"@,
            Parsha::Metzorah => "Metzorah"@,
            Parsha::AchareiMosKedoshim => "Acharei Mos/Kedoshim"@,
            Parsha::AchareiMos => "Acharei Mos"@,
            Parsha::Kedoshim => "Kedoshim"@,
            Parsha::Emor => "Emor"@,
            Parsha::BeharBechukosai => "Behar/Bechukosai"@,
            Parsha::Behar => "Behar"@,
            Parsha::Bechukosai => "Bechukosai"@,
            Parsha::Bamidbar => "Bamidbar"@,
            Parsha::Naso => "Naso"@,
            Parsha::Behaaloscha => "Behaaloscha"@,
            Parsha::Shlach => "Shlach"@,
            Parsha::Korach => "Korach"@,
            Parsha::ChukasBalak => "Chukas/Balak"@,
            Parsha::Chukas => "Chukas"@,
            Parsha::Balak => "Balak"@,
            Parsha::Pinchas => "Pinchas"@,
            Parsha::MatosMaasei => "Matos/Maasei"@,
            Parsha::Matos => "Matos"@,
            Parsha::Maasei => "Maasei"@,
            Parsha::Devarim => "Devarim"@,
            Parsha::Vaeschanan => "Vaeschanan"@,
            Parsha::Eikev => "Eikev"@,
            Parsha::Reeh => "Re'eh"@,
            Parsha::Shoftim => "Shoftim"@,
            Parsha::KiSeitzei => "Ki Seitzei"@,
            Parsha::KiSavoh => "Ki Savo"@,
            Parsha::NitzavimVayelech => "Nitzavim/Vayelech"@,
            Parsha::Nitzavim => "Nitzavim"@,
        },
        Language::Hebrew => match v {
            Parsha::Vayelech => "וילך"@,
            Parsha::Haazinu => "האזינו"@,
            Parsha::Bereishis => "בראשית"@,
            Parsha::Noach => "נח"@,
            Parsha::LechLecha => "לך לך"@,
            Parsha::Vayeira => "וירא"@,
            Parsha::ChayeiSara => "חיי שרה"@,
            Parsha::Toldos => "תולדות"@,
            Parsha::Vayetzei => "ויצא"@,
            Parsha::Vayishlach => "וישלח"@,
            Parsha::Vayeshev => "וישב"@,
            Parsha::Miketz => "מיקץ"@,
            Parsha::Vayigash => "ויגש"@,
            Parsha::Vayechi => "ויחי"@,
            Parsha::Shemos => "שמות"@,
            Parsha::Vaeira => "וארא"@,
            Parsha::Bo => "בא"@,
            Parsha::Beshalach => "בשלח"@,
            Parsha::Yisro => "יתרו"@,
            Parsha::Mishpatim => "משפטים"@,
            Parsha::Terumah => "תרומה"@,
            Parsha::Tetzaveh => "תצוה"@,
            Parsha::KiSisa => "כי תשא"@,
            Parsha::VayakhelPikudei => "ויקהל/פקודי"@,
            Parsha::Vayakhel => "ויקהל"@,
            Parsha::Pikudei => "פקודי"@,
            Parsha::Vayikra => "ויקרא"@,
            Parsha::Tzav => "צו"@,
            Parsha::Shemini => "שמיני"@,
            Parsha::TazriyaMetzorah => "תזריע/מצורע"@,
            Parsha::Tazriya => "תזריע"@,
            Parsha::Metzorah => "מצורע"@,
            Parsha::AchareiMosKedoshim => "אחרי מות/קדושים"@,
            Parsha::AchareiMos => "אחרי מות"@,
            Parsha::Kedoshim => "קדושים"@,
            Parsha::Emor => "אמור"@,
            Parsha::BeharBechukosai => "בהר/בחוקותי"@,
            Parsha::Behar => "בהר"@,
            Parsha::Bechukosai => "בחוקותי"@,
            Parsha::Bamidbar => "במדבר"@,
            Parsha::Naso => "נשא"@,
            Parsha::Behaaloscha => "בהעלותך"@,
            Parsha::Shlach => "שלח"@,
            Parsha::Korach => "קרח"@,
            Parsha::ChukasBalak => "חקת/בלק"@,
            Parsha::Chukas => "חקת"@,
            Parsha::Balak => "בלק"@,
            Parsha::Pinchas => "פינחס"@,
            Parsha::MatosMaasei => "מטות/מסעי"@,
            Parsha::Matos => "מטות"@,
            Parsha::Maasei => "מסעי"@,
            Parsha::Devarim => "דברים"@,
            Parsha::Vaeschanan => "ואתחנן"@,
            Parsha::Eikev => "עקב"@,
            Parsha::Reeh => "ראה"@,
            Parsha::Shoftim => "שופטים"@,
            Parsha::KiSeitzei => "כי תצא"@,
            Parsha::KiSavoh => "כי תבוא"@,
            Parsha::NitzavimVayelech => "ניצבים/וילך"@,
            Parsha::Nitzavim => "ניצבים"@,
        },
    }
}

/// Executable form of `spec_parsha_label`.
pub fn parsha_label(v: Parsha, lang: Language) -> (r: &'static str)
    ensures
        r@ == spec_parsha_label(v, lang),
{
    proof {
        reveal(spec_parsha_label);
    }
    match lang {
        Language::English => match v {
            Parsha::Vayelech => "Vayelech",
            Parsha::Haazinu => "Haazina",
            Parsha::Bereishis => "Bereishis",
            Parsha::Noach => "Noach",
            Parsha::LechLecha => "Lech Lecha",
            Parsha::Vayeira => "Vayeira",
            Parsha::ChayeiSara => "Chayei Sarah",
            Parsha::Toldos => "Toldos",
            Parsha::Vayetzei => "Vayetzei",
            Parsha::Vayishlach => "Vayishlach",
            Parsha::Vayeshev => "Vayeshev",
            Parsha::Miketz => "Miketz",
            Parsha::Vayigash => "Vayigash",
            Parsha::Vayechi => "Vayechi",
            Parsha::Shemos => "Shemos",
            Parsha::Vaeira => "Vaeira",
            Parsha::Bo => "Bo",
            Parsha::Beshalach => "Beshalach",
            Parsha::Yisro => "Yisro",
            Parsha::Mishpatim => "Mishpatim",
            Parsha::Terumah => "Terumah",
            Parsha::Tetzaveh => "Tetzaveh",
            Parsha::KiSisa => "Ki Sisa",
            Parsha::VayakhelPikudei => "Vayakhel/Pikudei",
            Parsha::Vayakhel => "Vayekhel",
            Parsha::Pikudei => "Pikudei",
            Parsha::Vayikra => "Vayikra",
            Parsha::Tzav => "Tzav",
            Parsha::Shemini => "Shemini",
            Parsha::TazriyaMetzorah => "Tazriya/Metzorah",
            Parsha::Tazriya => "Tazriya",
            Parsha::Metzorah => "Metzorah",
            Parsha::AchareiMosKedoshim => "Acharei Mos/Kedoshim",
            Parsha::AchareiMos => "Acharei Mos",
            Parsha::Kedoshim => "Kedoshim",
            Parsha::Emor => "Emor",
            Parsha::BeharBechukosai => "Behar/Bechukosai",
            Parsha::Behar => "Behar",
            Parsha::Bechukosai => "Bechukosai",
            Parsha::Bamidbar => "Bamidbar",
            Parsha::Naso => "Naso",
            Parsha::Behaaloscha => "Behaaloscha",
            Parsha::Shlach => "Shlach",
            Parsha::Korach => "Korach",
            Parsha::ChukasBalak => "Chukas/Balak",
            Parsha::Chukas => "Chukas",
            Parsha::Balak => "Balak",
            Parsha::Pinchas => "Pinchas",
            Parsha::MatosMaasei => "Matos/Maasei",
            Parsha::Matos => "Matos",
            Parsha::Maasei => "Maasei",
            Parsha::Devarim => "Devarim",
            Parsha::Vaeschanan => "Vaeschanan",
            Parsha::Eikev => "Eikev",
            Parsha::Reeh => "Re'eh",
            Parsha::Shoftim => "Shoftim",
            Parsha::KiSeitzei => "Ki Seitzei",
            Parsha::KiSavoh => "Ki Savo",
            Parsha::NitzavimVayelech => "Nitzavim/Vayelech",
            Parsha::Nitzavim => "Nitzavim",
        },
        Language::Hebrew => match v {
            Parsha::Vayelech => "וילך",
            Parsha::Haazinu => "האזינו",
            Parsha::Bereishis => "בראשית",
            Parsha::Noach => "נח",
            Parsha::LechLecha => "לך לך",
            Parsha::Vayeira => "וירא",
            Parsha::ChayeiSara => "חיי שרה",
            Parsha::Toldos => "תולדות",
            Parsha::Vayetzei => "ויצא",
            Parsha::Vayishlach => "וישלח",
            Parsha::Vayeshev => "וישב",
            Parsha::Miketz => "מיקץ",
            Parsha::Vayigash => "ויגש",
            Parsha::Vayechi => "ויחי",
            Parsha::Shemos => "שמות",
            Parsha::Vaeira => "וארא",
            Parsha::Bo => "בא",
            Parsha::Beshalach => "בשלח",
            Parsha::Yisro => "יתרו",
            Parsha::Mishpatim => "משפטים",
            Parsha::Terumah => "תרומה",
            Parsha::Tetzaveh => "תצוה",
            Parsha::KiSisa => "כי תשא",
            Parsha::VayakhelPikudei => "ויקהל/פקודי",
            Parsha::Vayakhel => "ויקהל",
            Parsha::Pikudei => "פקודי",
            Parsha::Vayikra => "ויקרא",
            Parsha::Tzav => "צו",
            Parsha::Shemini => "שמיני",
            Parsha::TazriyaMetzorah => "תזריע/מצורע",
            Parsha::Tazriya => "תזריע",
            Parsha::Metzorah => "מצורע",
            Parsha::AchareiMosKedoshim => "אחרי מות/קדושים",
            Parsha::AchareiMos => "אחרי מות",
            Parsha::Kedoshim => "קדושים",
            Parsha::Emor => "אמור",
            Parsha::BeharBechukosai => "בהר/בחוקותי",
            Parsha::Behar => "בהר",
            Parsha::Bechukosai => "בחוקותי",
            Parsha::Bamidbar => "במדבר",
            Parsha::Naso => "נשא",
            Parsha::Behaaloscha => "בהעלותך",
            Parsha::Shlach => "שלח",
            Parsha::Korach => "קרח",
            Parsha::ChukasBalak => "חקת/בלק",
            Parsha::Chukas => "חקת",
            Parsha::Balak => "בלק",
            Parsha::Pinchas => "פינחס",
            Parsha::MatosMaasei => "מטות/מסעי",
            Parsha::Matos => "מטות",
            Parsha::Maasei => "מסעי",
            Parsha::Devarim => "דברים",
            Parsha::Vaeschanan => "ואתחנן",
            Parsha::Eikev => "עקב",
            Parsha::Reeh => "ראה",
            Parsha::Shoftim => "שופטים",
            Parsha::KiSeitzei => "כי תצא",
            Parsha::KiSavoh => "כי תבוא",
            Parsha::NitzavimVayelech => "ניצבים/וילך",
            Parsha::Nitzavim => "ניצבים",
        },
    }
}

/// The display text of a `SpecialParsha` label in each language.
#[verifier::opaque]
pub open spec fn spec_special_label(v: SpecialParsha, lang: Language) -> Seq<char> {
    match lang {
        Language::English => match v {
            SpecialParsha::Shekalim => "Parshas Shekalim"@,
            SpecialParsha::Zachor => "Parshas Zachor"@,
            SpecialParsha::Parah => "Parshas Parah"@,
            SpecialParsha::HaChodesh => "Parshas HaChodesh"@,
        },
        Language::Hebrew => match v {
            SpecialParsha::Shekalim => "פרשת שקלים"@,
            SpecialParsha::Zachor => "פרשת זכור"@,
            SpecialParsha::Parah => "פרשת פרה"@,
            SpecialParsha::HaChodesh => "פרשת החודש"@,
        },
    }
}

/// Executable form of `spec_special_label`.
pub fn special_label(v: SpecialParsha, lang: Language) -> (r: &'static str)
    ensures
        r@ == spec_special_label(v, lang),
{
    proof {
        reveal(spec_special_label);
    }
    match lang {
        Language::English => match v {
            SpecialParsha::Shekalim => "Parshas Shekalim",
            SpecialParsha::Zachor => "Parshas Zachor",
            SpecialParsha::Parah => "Parshas Parah",
            SpecialParsha::HaChodesh => "Parshas HaChodesh",
        },
        Language::Hebrew => match v {
            SpecialParsha::Shekalim => "פרשת שקלים",
            SpecialParsha::Zachor => "פרשת זכור",
            SpecialParsha::Parah => "פרשת פרה",
            SpecialParsha::HaChodesh => "פרשת החודש",
        },
    }
}

/// The tractate names of the Daf Yomi catalog, in cycle order.
#[verifier::opaque]
pub open spec fn spec_tractate_name(i: int) -> Seq<char> {
    if i == 0 { "Berachos"@ }
    else    if i == 1 { "Shabbos"@ }
    else    if i == 2 { "Eruvin"@ }
    else    if i == 3 { "Pesachim"@ }
    else    if i == 4 { "Shekalim"@ }
    else    if i == 5 { "Yoma"@ }
    else    if i == 6 { "Sukkah"@ }
    else    if i == 7 { "Beitzah"@ }
    else    if i == 8 { "Rosh Hashanah"@ }
    else    if i == 9 { "Taanis"@ }
    else    if i == 10 { "Megillah"@ }
    else    if i == 11 { "Moed Katan"@ }
    else    if i == 12 { "Chagigah"@ }
    else    if i == 13 { "Yevamos"@ }
    else    if i == 14 { "Kesubos"@ }
    else    if i == 15 { "Nedarim"@ }
    else    if i == 16 { "Nazir"@ }
    else    if i == 17 { "Sotah"@ }
    else    if i == 18 { "Gittin"@ }
    else    if i == 19 { "Kiddushin"@ }
    else    if i == 20 { "Bava Kamma"@ }
    else    if i == 21 { "Bava Metzia"@ }
    else    if i == 22 { "Bava Basra"@ }
    else    if i == 23 { "Sanhedrin"@ }
    else    if i == 24 { "Makkos"@ }
    else    if i == 25 { "Shevuos"@ }
    else    if i == 26 { "Avodah Zarah"@ }
    else    if i == 27 { "Horayos"@ }
    else    if i == 28 { "Zevachim"@ }
    else    if i == 29 { "Menachos"@ }
    else    if i == 30 { "Chullin"@ }
    else    if i == 31 { "Bechoros"@ }
    else    if i == 32 { "Arachin"@ }
    else    if i == 33 { "Temurah"@ }
    else    if i == 34 { "Kerisos"@ }
    else    if i == 35 { "Meilah"@ }
    else { "Niddah"@ }
}

/// Executable form of `spec_tractate_name`.
pub fn tractate_name(i: usize) -> (r: &'static str)
    ensures
        r@ == spec_tractate_name(i as int),
{
    proof {
        reveal(spec_tractate_name);
    }
    match i {
        0 => "Berachos",
        1 => "Shabbos",
        2 => "Eruvin",
        3 => "Pesachim",
        4 => "Shekalim",
        5 => "Yoma",
        6 => "Sukkah",
        7 => "Beitzah",
        8 => "Rosh Hashanah",
        9 => "Taanis",
        10 => "Megillah",
        11 => "Moed Katan",
        12 => "Chagigah",
        13 => "Yevamos",
        14 => "Kesubos",
        15 => "Nedarim",
        16 => "Nazir",
        17 => "Sotah",
        18 => "Gittin",
        19 => "Kiddushin",
        20 => "Bava Kamma",
        21 => "Bava Metzia",
        22 => "Bava Basra",
        23 => "Sanhedrin",
        24 => "Makkos",
        25 => "Shevuos",
        26 => "Avodah Zarah",
        27 => "Horayos",
        28 => "Zevachim",
        29 => "Menachos",
        30 => "Chullin",
        31 => "Bechoros",
        32 => "Arachin",
        33 => "Temurah",
        34 => "Kerisos",
        35 => "Meilah",
        _ => "Niddah",
    }
}

/// The display text of a minor observance (the same in both languages,
/// as the original catalog carries English text only).
#[verifier::opaque]
pub open spec fn spec_minor_label(m: MinorHoliday) -> Seq<char> {
    match m {
        MinorHoliday::ErevYomKippur => "Erev Yom Kippur"@,
        MinorHoliday::ErevSukkos => "Erev Sukkos"@,
        MinorHoliday::ErevPesach => "Erev Pesach"@,
        MinorHoliday::PesachSheni => "Pesach Sheni"@,
        MinorHoliday::LagBaomer => "Lag Baomer"@,
        MinorHoliday::ErevShavuos => "Erev Shavuos"@,
        MinorHoliday::ErevRoshHashanah => "Erev Rosh Hashana"@,
        MinorHoliday::FifteenthOfShvat => "15th of Shvat"@,
        MinorHoliday::FifteenthOfAv => "15th of Av"@,
        MinorHoliday::PurimKattan => "Purim Kattan"@,
        MinorHoliday::ShushanPurimKattan => "Shushan Purim Kattan"@,
        MinorHoliday::Omer(k) => spec_omer_label(k as nat),
    }
}

/// Executable form of `spec_minor_label`.
pub fn minor_label(m: MinorHoliday) -> (r: String)
    ensures
        r@ == spec_minor_label(m),
{
    proof {
        reveal(spec_minor_label);
    }
    match m {
        MinorHoliday::ErevYomKippur => String::from_str("Erev Yom Kippur"),
        MinorHoliday::ErevSukkos => String::from_str("Erev Sukkos"),
        MinorHoliday::ErevPesach => String::from_str("Erev Pesach"),
        MinorHoliday::PesachSheni => String::from_str("Pesach Sheni"),
        MinorHoliday::LagBaomer => String::from_str("Lag Baomer"),
        MinorHoliday::ErevShavuos => String::from_str("Erev Shavuos"),
        MinorHoliday::ErevRoshHashanah => String::from_str("Erev Rosh Hashana"),
        MinorHoliday::FifteenthOfShvat => String::from_str("15th of Shvat"),
        MinorHoliday::FifteenthOfAv => String::from_str("15th of Av"),
        MinorHoliday::PurimKattan => String::from_str("Purim Kattan"),
        MinorHoliday::ShushanPurimKattan => String::from_str("Shushan Purim Kattan"),
        MinorHoliday::Omer(k) => omer_label(k),
    }
}

/// The machine identifier of a minor observance, for structured output.
#[verifier::opaque]
pub open spec fn spec_minor_json(m: MinorHoliday) -> Seq<char> {
    match m {
        MinorHoliday::ErevYomKippur => "ErevYomKippur"@,
        MinorHoliday::ErevSukkos => "ErevSukkos"@,
        MinorHoliday::ErevPesach => "ErevPesach"@,
        MinorHoliday::PesachSheni => "PesachSheni"@,
        MinorHoliday::LagBaomer => "LagBaomer"@,
        MinorHoliday::ErevShavuos => "ErevShavuos"@,
        MinorHoliday::ErevRoshHashanah => "ErevRoshHashanah"@,
        MinorHoliday::FifteenthOfShvat => "Shvat15"@,
        MinorHoliday::FifteenthOfAv => "Av15"@,
        MinorHoliday::PurimKattan => "PurimKattan"@,
        MinorHoliday::ShushanPurimKattan => "ShushanPurimKattan"@,
        MinorHoliday::Omer(k) => "Omer"@ + spec_dec_digits(k as nat),
    }
}

/// Executable form of `spec_minor_json`.
pub fn minor_json(m: MinorHoliday) -> (r: String)
    ensures
        r@ == spec_minor_json(m),
{
    proof {
        reveal(spec_minor_json);
    }
    match m {
        MinorHoliday::ErevYomKippur => String::from_str("ErevYomKippur"),
        MinorHoliday::ErevSukkos => String::from_str("ErevSukkos"),
        MinorHoliday::ErevPesach => String::from_str("ErevPesach"),
        MinorHoliday::PesachSheni => String::from_str("PesachSheni"),
        MinorHoliday::LagBaomer => String::from_str("LagBaomer"),
        MinorHoliday::ErevShavuos => String::from_str("ErevShavuos"),
        MinorHoliday::ErevRoshHashanah => String::from_str("ErevRoshHashanah"),
        MinorHoliday::FifteenthOfShvat => String::from_str("Shvat15"),
        MinorHoliday::FifteenthOfAv => String::from_str("Av15"),
        MinorHoliday::PurimKattan => String::from_str("PurimKattan"),
        MinorHoliday::ShushanPurimKattan => String::from_str("ShushanPurimKattan"),
        MinorHoliday::Omer(k) => {
            let mut s = String::from_str("Omer");
            let d = u64_string(k as u64);
            s.append(d.as_str());
            s
        },
    }
}

/// The display text of a daily study entry.
pub open spec fn spec_study_label(u: StudyUnit) -> Seq<char> {
    match u {
        StudyUnit::Daf { cycle, tractate, page } => spec_tractate_name(tractate as int) + " "@
            + spec_dec_digits(page as nat),
        StudyUnit::RambamOne { chapter } => "Mishneh Torah chapter "@ + spec_dec_digits(
            (chapter + 1) as nat,
        ),
        StudyUnit::RambamThree { chapter_set } => "Mishneh Torah chapters "@ + spec_dec_digits(
            (3 * chapter_set + 1) as nat,
        ) + "-"@ + spec_dec_digits((3 * chapter_set + 3) as nat),
        StudyUnit::Yerushalmi { page } => "Yerushalmi Yomi page "@ + spec_dec_digits(
            if page == 0 { 1554nat } else { page as nat },
        ),
    }
}

/// Executable form of `spec_study_label`.
pub fn study_label(u: StudyUnit) -> (r: String)
    ensures
        r@ == spec_study_label(u),
{
    match u {
        StudyUnit::Daf { cycle, tractate, page } => {
            let mut s = String::from_str(tractate_name(tractate));
            s.append(" ");
            let p = u64_string(page as u64);
            s.append(p.as_str());
            s
        },
        StudyUnit::RambamOne { chapter } => {
            let mut s = String::from_str("Mishneh Torah chapter ");
            let c = u64_string(chapter as u64 + 1);
            s.append(c.as_str());
            s
        },
        StudyUnit::RambamThree { chapter_set } => {
            let mut s = String::from_str("Mishneh Torah chapters ");
            let a = u64_string(3 * (chapter_set as u64) + 1);
            s.append(a.as_str());
            s.append("-");
            let b = u64_string(3 * (chapter_set as u64) + 3);
            s.append(b.as_str());
            s
        },
        StudyUnit::Yerushalmi { page } => {
            let mut s = String::from_str("Yerushalmi Yomi page ");
            let p = u64_string(if page == 0 { 1554 } else { page as u64 });
            s.append(p.as_str());
            s
        },
    }
}

/// The display text of any event label.
pub open spec fn spec_label(name: Name, lang: Language) -> Seq<char> {
    match name {
        Name::TorahReading(tr) => match tr {
            TorahReading::YomTov(v) => spec_yomtov_label(v, lang),
            TorahReading::Chol(v) => spec_chol_label(v, lang),
            TorahReading::Shabbos(v) => spec_parsha_label(v, lang),
            TorahReading::SpecialParsha(v) => spec_special_label(v, lang),
        },
        Name::MinorHoliday(m) => spec_minor_label(m),
        Name::CustomHoliday { printable, json } => printable@,
        Name::StudyUnit(u) => spec_study_label(u),
        Name::IsraeliHoliday => "Israeli holiday"@,
        Name::ChabadHoliday => "Chabad holiday"@,
        Name::ShabbosMevarchim => "Shabbos Mevarchim"@,
    }
}

/// Executable form of `spec_label`.
pub fn event_label(name: &Name, lang: Language) -> (r: String)
    ensures
        r@ == spec_label(*name, lang),
{
    match name {
        Name::TorahReading(tr) => match tr {
            TorahReading::YomTov(v) => String::from_str(yomtov_label(*v, lang)),
            TorahReading::Chol(v) => String::from_str(chol_label(*v, lang)),
            TorahReading::Shabbos(v) => String::from_str(parsha_label(*v, lang)),
            TorahReading::SpecialParsha(v) => String::from_str(special_label(*v, lang)),
        },
        Name::MinorHoliday(m) => minor_label(*m),
        Name::CustomHoliday { printable, json } => printable.clone(),
        Name::StudyUnit(u) => study_label(*u),
        Name::IsraeliHoliday => String::from_str("Israeli holiday"),
        Name::ChabadHoliday => String::from_str("Chabad holiday"),
        Name::ShabbosMevarchim => String::from_str("Shabbos Mevarchim"),
    }
}

/// The hour and minute (UTC) of the civil day containing the instant.
pub open spec fn spec_time_of_day(ts: int) -> (int, int) {
    ((ts % 86400) / 3600, ((ts % 86400) % 3600) / 60)
}

/// The candle-lighting tail of a rendered line: present only when the
/// time is known.
pub open spec fn spec_candle_part(c: CandleLighting) -> Seq<char> {
    match c {
        CandleLighting::NotApplicable => Seq::empty(),
        CandleLighting::ApplicableUnknown => Seq::empty(),
        CandleLighting::ApplicableKnown(t) => ", Candle lighting "@ + spec_dec_digits(
            spec_time_of_day(t as int).0 as nat,
        ) + ":"@ + spec_dec2(spec_time_of_day(t as int).1 as nat),
    }
}

/// The opening words of a rendered line.
pub open spec fn spec_night_prefix(lang: Language) -> Seq<char> {
    match lang {
        Language::English => "Night of "@,
        Language::Hebrew => "\u{5dc}\u{5d9}\u{5dc}\u{5d4} \u{5e9}\u{5dc} "@,
    }
}

/// Whether an event's instants are within the range the civil-date
/// conversion accepts, which every event of a supported request is.
pub open spec fn spec_renderable(e: Event) -> bool {
    &&& -62_135_596_800 <= e.instant <= TS_MAX + 4_500_000
    &&& (e.candle_lighting matches CandleLighting::ApplicableKnown(t) ==> -62_135_596_800 <= t
        <= TS_MAX + 4_500_000)
}

/// One rendered line: the night-of prefix, the civil date of the evening,
/// the label, and the candle-lighting time when known.
pub open spec fn spec_line(e: Event, lang: Language) -> Seq<char> {
    let ymd = spec_civil_ymd(e.instant as int);
    spec_night_prefix(lang) + spec_dec_digits(ymd.0 as nat) + "/"@ + spec_dec_digits(
        ymd.1 as nat,
    ) + "/"@ + spec_dec_digits(ymd.2 as nat) + ": "@ + spec_label(e.name, lang)
        + spec_candle_part(e.candle_lighting)
}

/// Renders one event as a line of text.
pub fn render_line(e: &Event, lang: Language) -> (r: String)
    requires
        spec_renderable(*e),
    ensures
        r@ == spec_line(*e, lang),
{
    let (y, m, d) = civil_ymd(e.instant);
    let mut s = match lang {
        Language::English => String::from_str("Night of "),
        Language::Hebrew => String::from_str("\u{5dc}\u{5d9}\u{5dc}\u{5d4} \u{5e9}\u{5dc} "),
    };
    let ys = u64_string(y as u64);
    s.append(ys.as_str());
    s.append("/");
    let ms = u64_string(m as u64);
    s.append(ms.as_str());
    s.append("/");
    let ds = u64_string(d as u64);
    s.append(ds.as_str());
    s.append(": ");
    let lbl = event_label(&e.name, lang);
    s.append(lbl.as_str());
    match e.candle_lighting {
        CandleLighting::NotApplicable => {},
        CandleLighting::ApplicableUnknown => {},
        CandleLighting::ApplicableKnown(t) => {
            let tod = ((t + 62_208_000_000_000) as u64) % 86400;
            proof {
                vstd::arithmetic::div_mod::lemma_mod_multiples_vanish(
                    720_000_000,
                    t as int,
                    86400,
                );
            }
            let hh = tod / 3600;
            let mm = (tod % 3600) / 60;
            s.append(", Candle lighting ");
            let hs = u64_string(hh);
            s.append(hs.as_str());
            s.append(":");
            if mm < 10 {
                s.append("0");
            }
            let msx = u64_string(mm);
            s.append(msx.as_str());
        },
    }
    proof {
        assert(s@ =~= spec_line(*e, lang));
    }
    s
}

/// The whole text rendering: every line in order, each terminated by a
/// newline.
pub open spec fn spec_text(s: Seq<Event>, lang: Language) -> Seq<char>
    decreases s.len(),
{
    if s.len() == 0 {
        Seq::empty()
    } else {
        spec_line(s[0], lang) + "\n"@ + spec_text(s.drop_first(), lang)
    }
}

/// Renders an event list as text, one line per event.
pub fn render_text(events: &Vec<Event>, lang: Language) -> (r: String)
    requires
        forall|i: int| 0 <= i < events@.len() ==> spec_renderable(#[trigger] events@[i]),
    ensures
        r@ == spec_text(events@, lang),
{
    let mut s = String::new();
    let mut i: usize = 0;
    proof {
        assert(events@.skip(0) =~= events@);
    }
    while i < events.len()
        invariant
            i <= events@.len(),
            forall|j: int| 0 <= j < events@.len() ==> spec_renderable(#[trigger] events@[j]),
            spec_text(events@, lang) == s@ + spec_text(events@.skip(i as int), lang),
        decreases events@.len() - i,
    {
        proof {
            assert(events@.skip(i as int)[0] == events@[i as int]);
            assert(events@.skip(i as int).drop_first() =~= events@.skip(i as int + 1));
        }
        let line = render_line(&events[i], lang);
        s.append(line.as_str());
        s.append("\n");
        proof {
            assert(spec_text(events@, lang) =~= s@ + spec_text(
                events@.skip(i as int + 1),
                lang,
            ));
        }
        i = i + 1;
    }
    proof {
        assert(events@.skip(events@.len() as int) =~= Seq::<Event>::empty());
        assert(s@ =~= spec_text(events@, lang));
    }
    s
}

} // verus!
