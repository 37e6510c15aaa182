use vstd::prelude::*;
use vstd::string::StringExecFns;

verus! {

/// Number of hours in one simulated day.
pub const SIMULATION_HOURS: usize = 24;

/// Number of hours that a simulation runs over an irradiation profile of
/// `profile_len` hourly entries: one day, or fewer when the profile is short.
pub fn simulated_hours(profile_len: usize) -> (n: usize)
    ensures
        n == if profile_len < SIMULATION_HOURS {
            profile_len
        } else {
            SIMULATION_HOURS
        },
{
    if profile_len < SIMULATION_HOURS {
        profile_len
    } else {
        SIMULATION_HOURS
    }
}

/// The month whose irradiation profile drives a simulation.
#[derive(Debug, Clone, Copy, PartialEq, Eq, Structural)]
pub enum Month {
    January,
    February,
    March,
    April,
    May,
    June,
    July,
    August,
    September,
    October,
    November,
    December,
}

impl Month {
    pub open spec fn spec_label(self) -> Seq<char> {
        match self {
            Month::January => "january"@,
            Month::February => "february"@,
            Month::March => "march"@,
            Month::April => "april"@,
            Month::May => "may"@,
            Month::June => "june"@,
            Month::July => "july"@,
            Month::August => "august"@,
            Month::September => "september"@,
            Month::October => "october"@,
            Month::November => "november"@,
            Month::December => "december"@,
        }
    }

    /// Path of the irradiation profile of this month.
    pub open spec fn spec_irradiation_file_name(self) -> Seq<char> {
        "pvgis/irradiation-"@ + self.spec_label() + ".json"@
    }

    /// The month's name in lower case.
    pub fn label(&self) -> (res: &'static str)
        ensures
            res@ == self.spec_label(),
            res@ == month_name(*self),
    {
        match self {
            Month::January => "january",
            Month::February => "february",
            Month::March => "march",
            Month::April => "april",
            Month::May => "may",
            Month::June => "june",
            Month::July => "july",
            Month::August => "august",
            Month::September => "september",
            Month::October => "october",
            Month::November => "november",
            Month::December => "december",
        }
    }

    /// Path of the file that holds this month's hourly irradiation profile.
    pub fn irradiation_file_name(&self) -> (res: String)
        ensures
            res@ == self.spec_irradiation_file_name(),
            res@ == "pvgis/irradiation-"@ + self.spec_label() + ".json"@,
    {
        let name = <String as StringExecFns>::from_str("pvgis/irradiation-");
        let name = name.concat(self.label());
        name.concat(".json")
    }
}

/// Each month has a name of its own.
pub proof fn lemma_month_labels_distinct(a: Month, b: Month)
    requires
        a != b,
    ensures
        a.spec_label() != b.spec_label(),
{
    reveal_strlit("january");
    reveal_strlit("february");
    reveal_strlit("march");
    reveal_strlit("april");
    reveal_strlit("may");
    reveal_strlit("june");
    reveal_strlit("july");
    reveal_strlit("august");
    reveal_strlit("september");
    reveal_strlit("october");
    reveal_strlit("november");
    reveal_strlit("december");
    if a.spec_label().len() == b.spec_label().len() {
        assert(a.spec_label()[0] != b.spec_label()[0] || a.spec_label()[2] != b.spec_label()[2]);
    }
}

/// Different months read different irradiation files.
pub proof fn lemma_irradiation_files_distinct(a: Month, b: Month)
    requires
        a != b,
    ensures
        a.spec_irradiation_file_name() != b.spec_irradiation_file_name(),
{
    lemma_month_labels_distinct(a, b);
    reveal_strlit("pvgis/irradiation-");
    reveal_strlit(".json");
    let fa = a.spec_irradiation_file_name();
    let fb = b.spec_irradiation_file_name();
    if fa == fb {
        assert(fa.subrange(18, fa.len() - 5) =~= a.spec_label());
        assert(fb.subrange(18, fb.len() - 5) =~= b.spec_label());
    }
}

/// The lower-case English name of a month.
pub open spec fn month_name(m: Month) -> Seq<char> {
    match m {
        Month::January => "january"@,
        Month::February => "february"@,
        Month::March => "march"@,
        Month::April => "april"@,
        Month::May => "may"@,
        Month::June => "june"@,
        Month::July => "july"@,
        Month::August => "august"@,
        Month::September => "september"@,
        Month::October => "october"@,
        Month::November => "november"@,
        Month::December => "december"@,
    }
}

/// Every month reads the file `pvgis/irradiation-<month>.json`, named by its
/// lower-case English name.
pub proof fn lemma_irradiation_file_names()
    ensures
        Month::January.spec_label() == "january"@,
        Month::February.spec_label() == "february"@,
        Month::March.spec_label() == "march"@,
        Month::April.spec_label() == "april"@,
        Month::May.spec_label() == "may"@,
        Month::June.spec_label() == "june"@,
        Month::July.spec_label() == "july"@,
        Month::August.spec_label() == "august"@,
        Month::September.spec_label() == "september"@,
        Month::October.spec_label() == "october"@,
        Month::November.spec_label() == "november"@,
        Month::December.spec_label() == "december"@,
        Month::January.spec_irradiation_file_name() == "pvgis/irradiation-january.json"@,
        Month::February.spec_irradiation_file_name() == "pvgis/irradiation-february.json"@,
        Month::March.spec_irradiation_file_name() == "pvgis/irradiation-march.json"@,
        Month::April.spec_irradiation_file_name() == "pvgis/irradiation-april.json"@,
        Month::May.spec_irradiation_file_name() == "pvgis/irradiation-may.json"@,
        Month::June.spec_irradiation_file_name() == "pvgis/irradiation-june.json"@,
        Month::July.spec_irradiation_file_name() == "pvgis/irradiation-july.json"@,
        Month::August.spec_irradiation_file_name() == "pvgis/irradiation-august.json"@,
        Month::September.spec_irradiation_file_name() == "pvgis/irradiation-september.json"@,
        Month::October.spec_irradiation_file_name() == "pvgis/irradiation-october.json"@,
        Month::November.spec_irradiation_file_name() == "pvgis/irradiation-november.json"@,
        Month::December.spec_irradiation_file_name() == "pvgis/irradiation-december.json"@,
{
    reveal_strlit("pvgis/irradiation-");
    reveal_strlit(".json");
    reveal_strlit("january");
    reveal_strlit("pvgis/irradiation-january.json");
    reveal_strlit("february");
    reveal_strlit("pvgis/irradiation-february.json");
    reveal_strlit("march");
    reveal_strlit("pvgis/irradiation-march.json");
    reveal_strlit("april");
    reveal_strlit("pvgis/irradiation-april.json");
    reveal_strlit("may");
    reveal_strlit("pvgis/irradiation-may.json");
    reveal_strlit("june");
    reveal_strlit("pvgis/irradiation-june.json");
    reveal_strlit("july");
    reveal_strlit("pvgis/irradiation-july.json");
    reveal_strlit("august");
    reveal_strlit("pvgis/irradiation-august.json");
    reveal_strlit("september");
    reveal_strlit("pvgis/irradiation-september.json");
    reveal_strlit("october");
    reveal_strlit("pvgis/irradiation-october.json");
    reveal_strlit("november");
    reveal_strlit("pvgis/irradiation-november.json");
    reveal_strlit("december");
    reveal_strlit("pvgis/irradiation-december.json");
    assert(Month::January.spec_irradiation_file_name() =~= "pvgis/irradiation-january.json"@);
    assert(Month::February.spec_irradiation_file_name() =~= "pvgis/irradiation-february.json"@);
    assert(Month::March.spec_irradiation_file_name() =~= "pvgis/irradiation-march.json"@);
    assert(Month::April.spec_irradiation_file_name() =~= "pvgis/irradiation-april.json"@);
    assert(Month::May.spec_irradiation_file_name() =~= "pvgis/irradiation-may.json"@);
    assert(Month::June.spec_irradiation_file_name() =~= "pvgis/irradiation-june.json"@);
    assert(Month::July.spec_irradiation_file_name() =~= "pvgis/irradiation-july.json"@);
    assert(Month::August.spec_irradiation_file_name() =~= "pvgis/irradiation-august.json"@);
    assert(Month::September.spec_irradiation_file_name() =~= "pvgis/irradiation-september.json"@);
    assert(Month::October.spec_irradiation_file_name() =~= "pvgis/irradiation-october.json"@);
    assert(Month::November.spec_irradiation_file_name() =~= "pvgis/irradiation-november.json"@);
    assert(Month::December.spec_irradiation_file_name() =~= "pvgis/irradiation-december.json"@);
}

/// A month's file name is the directory prefix, the month's name, and the
/// `.json` extension, in that order.
pub proof fn lemma_irradiation_file_name_shape(m: Month)
    ensures
        m.spec_irradiation_file_name() == "pvgis/irradiation-"@ + month_name(m) + ".json"@,
        m.spec_label() == month_name(m),
{
}

} // verus!
