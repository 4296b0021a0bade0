//! The data model: events, labels, candle-lighting classification and the
//! selection configuration shared by all generators.

use vstd::prelude::*;

verus! {

/// A month of the Hebrew calendar.  `Adar` exists only in non-leap years;
/// `Adar1` and `Adar2` only in leap years.
#[derive(Clone, Copy, Debug, PartialEq, Eq, Structural)]
pub enum Month {
    Tishrei,
    Cheshvan,
    Kislev,
    Teves,
    Shvat,
    Adar,
    Adar1,
    Adar2,
    Nissan,
    Iyar,
    Sivan,
    Tammuz,
    Av,
    Elul,
}

impl Month {
    /// The numeric code under which the calendar crate knows this month.
    pub open spec fn spec_code(self) -> u8 {
        match self {
            Month::Tishrei => 0,
            Month::Cheshvan => 1,
            Month::Kislev => 2,
            Month::Teves => 3,
            Month::Shvat => 4,
            Month::Adar => 5,
            Month::Adar1 => 6,
            Month::Adar2 => 7,
            Month::Nissan => 8,
            Month::Iyar => 9,
            Month::Sivan => 10,
            Month::Tammuz => 11,
            Month::Av => 12,
            Month::Elul => 13,
        }
    }

    #[verifier::when_used_as_spec(spec_code)]
    pub fn code(self) -> (r: u8)
        ensures
            r == self.spec_code(),
    {
        match self {
            Month::Tishrei => 0,
            Month::Cheshvan => 1,
            Month::Kislev => 2,
            Month::Teves => 3,
            Month::Shvat => 4,
            Month::Adar => 5,
            Month::Adar1 => 6,
            Month::Adar2 => 7,
            Month::Nissan => 8,
            Month::Iyar => 9,
            Month::Sivan => 10,
            Month::Tammuz => 11,
            Month::Av => 12,
            Month::Elul => 13,
        }
    }
}

/// Whether the second-day holiday observances of the Diaspora apply.
#[derive(Clone, Copy, Debug, PartialEq, Eq, Structural)]
pub enum Location {
    Israel,
    Diaspora,
}

/// Output language of the text renderer.
#[derive(Clone, Copy, Debug, PartialEq, Eq, Structural)]
pub enum Language {
    English,
    Hebrew,
}

/// The major holidays on which the Torah is read.
#[derive(Clone, Copy, Debug, PartialEq, Eq, Structural)]
pub enum YomTov {
    RoshHashanah1,
    RoshHashanah2,
    YomKippur,
    Sukkos1,
    Sukkos2,
    Sukkos3,
    Sukkos4,
    Sukkos5,
    Sukkos6,
    Sukkos7,
    ShminiAtzeres,
    SimchasTorah,
    Pesach1,
    Pesach2,
    Pesach3,
    Pesach4,
    Pesach5,
    Pesach6,
    Pesach7,
    Pesach8,
    Shavuos1,
    Shavuos2,
}

/// Weekday Torah readings: Rosh Chodesh, Chanukah, Purim and the fasts.
#[derive(Clone, Copy, Debug, PartialEq, Eq, Structural)]
pub enum Chol {
    TzomGedalia,
    RoshChodeshCheshvan1,
    RoshChodeshCheshvan2,
    Chanukah1,
    Chanukah2,
    Chanukah3,
    Chanukah4,
    Chanukah5,
    Chanukah6,
    Chanukah7,
    Chanukah8,
    TenTeves,
    RoshChodeshShvat,
    RoshChodeshNissan,
    RoshChodeshIyar1,
    RoshChodeshIyar2,
    RoshChodeshSivan,
    RoshChodeshTammuz1,
    RoshChodeshTammuz2,
    RoshChodeshAv,
    RoshChodeshElul1,
    RoshChodeshElul2,
    RoshChodeshKislev1,
    RoshChodeshKislev2,
    RoshChodeshKislev,
    RoshChodeshTeves1,
    RoshChodeshTeves2,
    RoshChodeshTeves,
    RoshChodeshAdar1,
    RoshChodeshAdar2,
    TaanisEsther,
    Purim,
    ShushanPurim,
    RoshChodeshAdarRishon1,
    RoshChodeshAdarRishon2,
    RoshChodeshAdarSheni1,
    RoshChodeshAdarSheni2,
    SeventeenTammuz,
    NineAv,
}

/// The weekly Torah portions, including the doubled readings.
#[derive(Clone, Copy, Debug, PartialEq, Eq, Structural)]
pub enum Parsha {
    Vayelech,
    Haazinu,
    Bereishis,
    Noach,
    LechLecha,
    Vayeira,
    ChayeiSara,
    Toldos,
    Vayetzei,
    Vayishlach,
    Vayeshev,
    Miketz,
    Vayigash,
    Vayechi,
    Shemos,
    Vaeira,
    Bo,
    Beshalach,
    Yisro,
    Mishpatim,
    Terumah,
    Tetzaveh,
    KiSisa,
    VayakhelPikudei,
    Vayakhel,
    Pikudei,
    Vayikra,
    Tzav,
    Shemini,
    TazriyaMetzorah,
    Tazriya,
    Metzorah,
    AchareiMosKedoshim,
    AchareiMos,
    Kedoshim,
    Emor,
    BeharBechukosai,
    Behar,
    Bechukosai,
    Bamidbar,
    Naso,
    Behaaloscha,
    Shlach,
    Korach,
    ChukasBalak,
    Chukas,
    Balak,
    Pinchas,
    MatosMaasei,
    Matos,
    Maasei,
    Devarim,
    Vaeschanan,
    Eikev,
    Reeh,
    Shoftim,
    KiSeitzei,
    KiSavoh,
    NitzavimVayelech,
    Nitzavim,
}

/// The four special winter Torah portions.
#[derive(Clone, Copy, Debug, PartialEq, Eq, Structural)]
pub enum SpecialParsha {
    Shekalim,
    Zachor,
    Parah,
    HaChodesh,
}

/// A Torah-reading occasion, as reported by the calendar.
#[derive(Clone, Copy, Debug, PartialEq, Eq, Structural)]
pub enum TorahReading {
    YomTov(YomTov),
    Chol(Chol),
    Shabbos(Parsha),
    SpecialParsha(SpecialParsha),
}

/// Calendar-fixed minor observances, plus the 49 Omer-count days.
#[derive(Clone, Copy, Debug, PartialEq, Eq, Structural)]
pub enum MinorHoliday {
    ErevYomKippur,
    ErevSukkos,
    ErevPesach,
    PesachSheni,
    LagBaomer,
    ErevShavuos,
    ErevRoshHashanah,
    FifteenthOfShvat,
    FifteenthOfAv,
    PurimKattan,
    ShushanPurimKattan,
    /// The k-th day of the Omer count, `1 <= k <= 49`.
    Omer(u8),
}

/// A reference into a daily study cycle.
#[derive(Clone, Copy, Debug, PartialEq, Eq, Structural)]
pub enum StudyUnit {
    /// A page of the Babylonian Talmud: which historical cycle, the index of
    /// the tractate in the cycle's catalog, and the page number within it.
    Daf { cycle: u8, tractate: usize, page: u16 },
    /// The n-th chapter of the one-chapter-a-day Rambam cycle (0-based).
    RambamOne { chapter: u16 },
    /// The n-th three-chapter set of the three-chapters-a-day Rambam cycle.
    RambamThree { chapter_set: u16 },
    /// The n-th page of the Jerusalem Talmud cycle (0-based).
    Yerushalmi { page: u16 },
}

/// The label of an event: a closed union, matched exhaustively wherever
/// events are rendered or serialized.
#[derive(Clone, Debug)]
pub enum Name {
    TorahReading(TorahReading),
    MinorHoliday(MinorHoliday),
    CustomHoliday { printable: String, json: String },
    StudyUnit(StudyUnit),
    IsraeliHoliday,
    ChabadHoliday,
    ShabbosMevarchim,
}

/// Candle-lighting classification of an event.  Three-valued on purpose:
/// collapsing it to an optional would lose the difference between "not an
/// eve" and "an eve whose lighting time is unknown".
#[derive(Clone, Copy, Debug, PartialEq, Eq, Structural)]
pub enum CandleLighting {
    /// Not the eve of Shabbos or Yom Tov.
    NotApplicable,
    /// The eve of Shabbos or Yom Tov, but no city is configured, no sunset
    /// was available, or the flame carries over from the preceding Shabbos.
    ApplicableUnknown,
    /// The eve of Shabbos or Yom Tov, candles lit at this civil timestamp.
    ApplicableKnown(i64),
}

/// One calendar event.  `instant` is the civil timestamp (seconds since the
/// Unix epoch, UTC) of the evening onset of the civil day the event
/// announces.
#[derive(Clone, Debug)]
pub struct Event {
    pub instant: i64,
    pub name: Name,
    pub candle_lighting: CandleLighting,
}

impl Event {
    /// An equal copy of the event.
    pub fn clone_event(&self) -> (r: Event)
        ensures
            r == *self,
    {
        Event {
            instant: self.instant,
            name: match &self.name {
                Name::TorahReading(tr) => Name::TorahReading(*tr),
                Name::MinorHoliday(m) => Name::MinorHoliday(*m),
                Name::CustomHoliday { printable, json } => Name::CustomHoliday {
                    printable: printable.clone(),
                    json: json.clone(),
                },
                Name::StudyUnit(u) => Name::StudyUnit(*u),
                Name::IsraeliHoliday => Name::IsraeliHoliday,
                Name::ChabadHoliday => Name::ChabadHoliday,
                Name::ShabbosMevarchim => Name::ShabbosMevarchim,
            },
            candle_lighting: self.candle_lighting,
        }
    }
}

/// A fallback date of a custom holiday.
#[derive(Clone, Copy, Debug, PartialEq, Eq, Structural)]
pub struct MonthDay {
    pub month: Month,
    pub day: u8,
}

/// A user-defined observance anchored to a Hebrew date, with an ordered list
/// of fallback dates for years in which the primary date does not exist.
#[derive(Clone, Debug)]
pub struct CustomHolidayDef {
    pub date: MonthDay,
    pub fallbacks: Vec<MonthDay>,
    pub printable: String,
    pub json: String,
}

/// Candle-lighting settings of the configured city.  The geographic data the
/// sunset collaborator needs lives outside the library; only the offset the
/// classification rule uses is carried here.
#[derive(Clone, Copy, Debug, PartialEq, Eq, Structural)]
pub struct City {
    /// Minutes before sunset at which candles are lit.
    pub candle_offset_minutes: u32,
}

/// The read-only selection configuration shared by all generators.
#[derive(Clone, Debug)]
pub struct SelectionConfig {
    pub location: Location,
    /// Subscribed Torah-reading categories.
    pub yom_tov: bool,
    pub chol: bool,
    pub shabbos: bool,
    pub special_parsha: bool,
    /// Minor-holiday toggles.
    pub omer: bool,
    pub minor: bool,
    /// Further fixed observance sets.  No catalog of the Israeli or the
    /// Chabad observances is available from the calendar this library is
    /// built on, so those two toggles currently contribute no events.
    pub israeli: bool,
    pub chabad: bool,
    pub shabbos_mevarchim: bool,
    /// Subscribed daily study cycles.
    pub daf_yomi: bool,
    pub rambam_one: bool,
    pub rambam_three: bool,
    pub yerushalmi: bool,
    /// User-defined observances.
    pub custom: Vec<CustomHolidayDef>,
    /// The configured city, if any.
    pub city: Option<City>,
}

/// The result of a list run: the generated events, ordered when sorting
/// was enabled.
#[derive(Clone, Debug)]
pub struct Return {
    pub list: Vec<Event>,
}

/// How the requested span of years is given.
#[derive(Clone, Copy, Debug, PartialEq, Eq, Structural)]
pub enum YearType {
    Hebrew(u64),
    Gregorian(u64),
}

/// Why a run was refused before any generation work began.
#[derive(Clone, Copy, Debug, PartialEq, Eq, Structural)]
pub enum EventError {
    /// A requested Hebrew year (start or end of the span, including a
    /// span endpoint derived from a Gregorian request) is outside the
    /// calendar's supported domain.
    InvalidYear,
}

impl EventError {
    /// A human-readable description of the error.
    pub fn message(&self) -> &'static str {
        match self {
            EventError::InvalidYear => "requested year is outside the supported calendar range",
        }
    }
}

} // verus!
