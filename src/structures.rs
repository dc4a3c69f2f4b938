//! The closed sets that a query is checked against: filter names, area types
//! and result fields, and the error that a rejected choice yields.
use vstd::prelude::*;

use crate::text::{join_lines, lines, views};

verus! {

/// What went wrong with a query or with its answer.
#[derive(Debug, Clone, Copy, PartialEq, Eq, Structural)]
pub enum ApiErrorKind {
    /// The filter name is not one of `Filters`.
    InvalidFilter,
    /// The filter name is known, but the value is not allowed for it.
    InvalidFilterValue,
    /// The result field is not one of `Structures`.
    InvalidStructure,
    /// The request did not reach the service, or no answer came back.
    TransportError,
    /// The answer is not a JSON document.
    DecodeError,
}

impl ApiErrorKind {
    /// The variant's name.
    pub open spec fn spec_name(self) -> Seq<char> {
        match self {
            ApiErrorKind::InvalidFilter => "InvalidFilter"@,
            ApiErrorKind::InvalidFilterValue => "InvalidFilterValue"@,
            ApiErrorKind::InvalidStructure => "InvalidStructure"@,
            ApiErrorKind::TransportError => "TransportError"@,
            ApiErrorKind::DecodeError => "DecodeError"@,
        }
    }

    /// The variant's name.
    pub fn name(&self) -> (r: &'static str)
        ensures
            r@ == self.spec_name(),
    {
        match self {
            ApiErrorKind::InvalidFilter => "InvalidFilter",
            ApiErrorKind::InvalidFilterValue => "InvalidFilterValue",
            ApiErrorKind::InvalidStructure => "InvalidStructure",
            ApiErrorKind::TransportError => "TransportError",
            ApiErrorKind::DecodeError => "DecodeError",
        }
    }
}

/// A rejected choice or a failed request, with a message for the caller.
#[derive(Debug, Clone, PartialEq)]
pub struct ApiError {
    pub kind: ApiErrorKind,
    pub msg: String,
}

impl ApiError {
    /// The error in one line: its kind, then its message.
    pub fn to_string(&self) -> (r: String)
        ensures
            r@ == "Type:"@ + self.kind.spec_name() + ", Msg: "@ + self.msg@,
    {
        let mut s = String::from_str("Type:");
        s.append(self.kind.name());
        s.append(", Msg: ");
        s.append(self.msg.as_str());
        s
    }
}

/// One line of a description: a space, a member's token and what it stands for.
pub open spec fn described_entry(name: Seq<char>, description: Seq<char>) -> Seq<char> {
    " "@ + name + " - "@ + description
}

fn describe_entry(name: &str, description: &str) -> (r: String)
    ensures
        r@ == described_entry(name@, description@),
{
    let mut s = String::from_str(" ");
    s.append(name);
    s.append(" - ");
    s.append(description);
    s
}

/// The names under which a query can be narrowed.
#[allow(non_camel_case_types)]
#[derive(Debug, Clone, Copy, PartialEq, Eq, Structural)]
pub enum Filters {
    areaType,
    areaName,
    areaCode,
    date,
}

impl Filters {
    /// The token that stands for this member in a query.
    pub open spec fn spec_name(self) -> Seq<char> {
        match self {
            Filters::areaType => "areaType"@,
            Filters::areaName => "areaName"@,
            Filters::areaCode => "areaCode"@,
            Filters::date => "date"@,
        }
    }

    /// What this member stands for, in words.
    pub open spec fn spec_description(self) -> Seq<char> {
        match self {
            Filters::areaType => "Area type as string"@,
            Filters::areaName => "Area name as string"@,
            Filters::areaCode => "Area Code as string"@,
            Filters::date => "Date as string [YYYY-MM-DD]"@,
        }
    }

    /// Every member, in declaration order.
    pub open spec fn spec_all() -> Seq<Filters> {
        seq![
            Filters::areaType,
            Filters::areaName,
            Filters::areaCode,
            Filters::date,
        ]
    }

    /// The tokens of every member, in declaration order.
    pub open spec fn names() -> Seq<Seq<char>> {
        Self::spec_all().map_values(|m: Filters| m.spec_name())
    }

    /// One entry per member, in declaration order: its token and what it stands for.
    pub open spec fn described() -> Seq<Seq<char>> {
        Self::spec_all().map_values(|m: Filters| described_entry(m.spec_name(), m.spec_description()))
    }

    /// Every member's token is listed among the names.
    pub proof fn lemma_listed(self)
        ensures
            Self::names().contains(self.spec_name()),
    {
        match self {
            Filters::areaType => assert(Self::names()[0] == self.spec_name()),
            Filters::areaName => assert(Self::names()[1] == self.spec_name()),
            Filters::areaCode => assert(Self::names()[2] == self.spec_name()),
            Filters::date => assert(Self::names()[3] == self.spec_name()),
        }
    }

    /// The token that stands for this member in a query.
    pub fn name(&self) -> (r: &'static str)
        ensures
            r@ == self.spec_name(),
    {
        match self {
            Filters::areaType => "areaType",
            Filters::areaName => "areaName",
            Filters::areaCode => "areaCode",
            Filters::date => "date",
        }
    }

    /// What this member stands for, in words.
    pub fn description(&self) -> (r: &'static str)
        ensures
            r@ == self.spec_description(),
    {
        match self {
            Filters::areaType => "Area type as string",
            Filters::areaName => "Area name as string",
            Filters::areaCode => "Area Code as string",
            Filters::date => "Date as string [YYYY-MM-DD]",
        }
    }

    /// Every member, in declaration order.
    pub fn all() -> (r: Vec<Filters>)
        ensures
            r@ == Self::spec_all(),
    {
        let mut v = Vec::new();
        v.push(Filters::areaType);
        v.push(Filters::areaName);
        v.push(Filters::areaCode);
        v.push(Filters::date);
        assert(v@ =~= Self::spec_all());
        v
    }

    /// Every filter name, in declaration order.
    pub fn to_vec() -> (r: Vec<String>)
        ensures
            views(r@) == Self::names(),
    {
        let all = Self::all();
        let mut out: Vec<String> = Vec::new();
        let mut i: usize = 0;
        while i < all.len()
            invariant
                0 <= i <= all.len(),
                all@ == Self::spec_all(),
                out@.len() == i,
                forall|j: int| 0 <= j < i ==> #[trigger] out@[j]@ == Self::spec_all()[j].spec_name(),
            decreases all.len() - i,
        {
            out.push(String::from_str(all[i].name()));
            i += 1;
        }
        assert(views(out@) =~= Self::names());
        out
    }

    /// Every filter name, one per line.
    pub fn to_string() -> (r: String)
        ensures
            r@ == lines(Self::names()),
    {
        join_lines(&Self::to_vec())
    }

    /// Every member and what it stands for, one member per line.
    pub fn field_descriptions() -> (r: String)
        ensures
            r@ == lines(Self::described()),
    {
        let all = Self::all();
        let mut entries: Vec<String> = Vec::new();
        let mut i: usize = 0;
        while i < all.len()
            invariant
                0 <= i <= all.len(),
                all@ == Self::spec_all(),
                entries@.len() == i,
                forall|j: int| 0 <= j < i ==> #[trigger] entries@[j]@ == described_entry(Self::spec_all()[j].spec_name(), Self::spec_all()[j].spec_description()),
            decreases all.len() - i,
        {
            entries.push(describe_entry(all[i].name(), all[i].description()));
            i += 1;
        }
        assert(views(entries@) =~= Self::described());
        join_lines(&entries)
    }
}

/// The levels of geography by which figures are grouped: the values of the
/// `areaType` filter.
#[allow(non_camel_case_types)]
#[derive(Debug, Clone, Copy, PartialEq, Eq, Structural)]
pub enum AreaType {
    overview,
    nation,
    region,
    nhsRegion,
    utla,
    ltla,
}

impl AreaType {
    /// The token that stands for this member in a query.
    pub open spec fn spec_name(self) -> Seq<char> {
        match self {
            AreaType::overview => "overview"@,
            AreaType::nation => "nation"@,
            AreaType::region => "region"@,
            AreaType::nhsRegion => "nhsRegion"@,
            AreaType::utla => "utla"@,
            AreaType::ltla => "ltla"@,
        }
    }

    /// What this member stands for, in words.
    pub open spec fn spec_description(self) -> Seq<char> {
        match self {
            AreaType::overview => "Overview data for the United Kingdom"@,
            AreaType::nation => "Nation data (England, Northern Ireland, Scotland, and Wales)"@,
            AreaType::region => "Region data"@,
            AreaType::nhsRegion => "NHS Region data"@,
            AreaType::utla => "Upper-tier local authority data"@,
            AreaType::ltla => "Lower-tier local authority data"@,
        }
    }

    /// Every member, in declaration order.
    pub open spec fn spec_all() -> Seq<AreaType> {
        seq![
            AreaType::overview,
            AreaType::nation,
            AreaType::region,
            AreaType::nhsRegion,
            AreaType::utla,
            AreaType::ltla,
        ]
    }

    /// The tokens of every member, in declaration order.
    pub open spec fn names() -> Seq<Seq<char>> {
        Self::spec_all().map_values(|m: AreaType| m.spec_name())
    }

    /// One entry per member, in declaration order: its token and what it stands for.
    pub open spec fn described() -> Seq<Seq<char>> {
        Self::spec_all().map_values(|m: AreaType| described_entry(m.spec_name(), m.spec_description()))
    }

    /// Every member's token is listed among the names.
    pub proof fn lemma_listed(self)
        ensures
            Self::names().contains(self.spec_name()),
    {
        match self {
            AreaType::overview => assert(Self::names()[0] == self.spec_name()),
            AreaType::nation => assert(Self::names()[1] == self.spec_name()),
            AreaType::region => assert(Self::names()[2] == self.spec_name()),
            AreaType::nhsRegion => assert(Self::names()[3] == self.spec_name()),
            AreaType::utla => assert(Self::names()[4] == self.spec_name()),
            AreaType::ltla => assert(Self::names()[5] == self.spec_name()),
        }
    }

    /// The token that stands for this member in a query.
    pub fn name(&self) -> (r: &'static str)
        ensures
            r@ == self.spec_name(),
    {
        match self {
            AreaType::overview => "overview",
            AreaType::nation => "nation",
            AreaType::region => "region",
            AreaType::nhsRegion => "nhsRegion",
            AreaType::utla => "utla",
            AreaType::ltla => "ltla",
        }
    }

    /// What this member stands for, in words.
    pub fn description(&self) -> (r: &'static str)
        ensures
            r@ == self.spec_description(),
    {
        match self {
            AreaType::overview => "Overview data for the United Kingdom",
            AreaType::nation => "Nation data (England, Northern Ireland, Scotland, and Wales)",
            AreaType::region => "Region data",
            AreaType::nhsRegion => "NHS Region data",
            AreaType::utla => "Upper-tier local authority data",
            AreaType::ltla => "Lower-tier local authority data",
        }
    }

    /// Every member, in declaration order.
    pub fn all() -> (r: Vec<AreaType>)
        ensures
            r@ == Self::spec_all(),
    {
        let mut v = Vec::new();
        v.push(AreaType::overview);
        v.push(AreaType::nation);
        v.push(AreaType::region);
        v.push(AreaType::nhsRegion);
        v.push(AreaType::utla);
        v.push(AreaType::ltla);
        assert(v@ =~= Self::spec_all());
        v
    }

    /// Every area type, in declaration order.
    pub fn to_vec() -> (r: Vec<String>)
        ensures
            views(r@) == Self::names(),
    {
        let all = Self::all();
        let mut out: Vec<String> = Vec::new();
        let mut i: usize = 0;
        while i < all.len()
            invariant
                0 <= i <= all.len(),
                all@ == Self::spec_all(),
                out@.len() == i,
                forall|j: int| 0 <= j < i ==> #[trigger] out@[j]@ == Self::spec_all()[j].spec_name(),
            decreases all.len() - i,
        {
            out.push(String::from_str(all[i].name()));
            i += 1;
        }
        assert(views(out@) =~= Self::names());
        out
    }

    /// Every area type, one per line.
    pub fn to_string() -> (r: String)
        ensures
            r@ == lines(Self::names()),
    {
        join_lines(&Self::to_vec())
    }

    /// Every member and what it stands for, one member per line.
    pub fn field_description() -> (r: String)
        ensures
            r@ == lines(Self::described()),
    {
        let all = Self::all();
        let mut entries: Vec<String> = Vec::new();
        let mut i: usize = 0;
        while i < all.len()
            invariant
                0 <= i <= all.len(),
                all@ == Self::spec_all(),
                entries@.len() == i,
                forall|j: int| 0 <= j < i ==> #[trigger] entries@[j]@ == described_entry(Self::spec_all()[j].spec_name(), Self::spec_all()[j].spec_description()),
            decreases all.len() - i,
        {
            entries.push(describe_entry(all[i].name(), all[i].description()));
            i += 1;
        }
        assert(views(entries@) =~= Self::described());
        join_lines(&entries)
    }
}

/// The result fields that a query can ask for.
#[allow(non_camel_case_types)]
#[derive(Debug, Clone, Copy, PartialEq, Eq, Structural)]
pub enum Structures {
    areaType,
    areaName,
    areaCode,
    date,
    hash,
    newCasesByPublishDate,
    cumCasesByPublishDate,
    cumCasesBySpecimenDateRate,
    newCasesBySpecimenDate,
    maleCases,
    femaleCases,
    newPillarOneTestsByPublishDate,
    cumPillarOneTestsByPublishDate,
    newPillarTwoTestsByPublishDate,
    cumPillarTwoTestsByPublishDate,
    newPillarThreeTestsByPublishDate,
    cumPillarThreeTestsByPublishDate,
    newPillarFourTestsByPublishDate,
    cumPillarFourTestsByPublishDate,
    newAdmissions,
    cumAdmissions,
    cumAdmissionsByAge,
    newTestsByPublishDate,
    cumTestsByPublishDate,
    covidOccupiedMVBeds,
    hospitalCases,
    plannedCapacityByPublishDate,
    newDeaths28DaysByPublishDate,
    cumDeaths28DaysByPublishDate,
    cumDeaths28DaysByPublishDateRate,
    newDeaths28DaysByDeathDate,
    cumDeaths28DaysByDeathDate,
    cumDeaths28DaysByDeathDateRate,
}

impl Structures {
    /// The token that stands for this member in a query.
    pub open spec fn spec_name(self) -> Seq<char> {
        match self {
            Structures::areaType => "areaType"@,
            Structures::areaName => "areaName"@,
            Structures::areaCode => "areaCode"@,
            Structures::date => "date"@,
            Structures::hash => "hash"@,
            Structures::newCasesByPublishDate => "newCasesByPublishDate"@,
            Structures::cumCasesByPublishDate => "cumCasesByPublishDate"@,
            Structures::cumCasesBySpecimenDateRate => "cumCasesBySpecimenDateRate"@,
            Structures::newCasesBySpecimenDate => "newCasesBySpecimenDate"@,
            Structures::maleCases => "maleCases"@,
            Structures::femaleCases => "femaleCases"@,
            Structures::newPillarOneTestsByPublishDate => "newPillarOneTestsByPublishDate"@,
            Structures::cumPillarOneTestsByPublishDate => "cumPillarOneTestsByPublishDate"@,
            Structures::newPillarTwoTestsByPublishDate => "newPillarTwoTestsByPublishDate"@,
            Structures::cumPillarTwoTestsByPublishDate => "cumPillarTwoTestsByPublishDate"@,
            Structures::newPillarThreeTestsByPublishDate => "newPillarThreeTestsByPublishDate"@,
            Structures::cumPillarThreeTestsByPublishDate => "cumPillarThreeTestsByPublishDate"@,
            Structures::newPillarFourTestsByPublishDate => "newPillarFourTestsByPublishDate"@,
            Structures::cumPillarFourTestsByPublishDate => "cumPillarFourTestsByPublishDate"@,
            Structures::newAdmissions => "newAdmissions"@,
            Structures::cumAdmissions => "cumAdmissions"@,
            Structures::cumAdmissionsByAge => "cumAdmissionsByAge"@,
            Structures::newTestsByPublishDate => "newTestsByPublishDate"@,
            Structures::cumTestsByPublishDate => "cumTestsByPublishDate"@,
            Structures::covidOccupiedMVBeds => "covidOccupiedMVBeds"@,
            Structures::hospitalCases => "hospitalCases"@,
            Structures::plannedCapacityByPublishDate => "plannedCapacityByPublishDate"@,
            Structures::newDeaths28DaysByPublishDate => "newDeaths28DaysByPublishDate"@,
            Structures::cumDeaths28DaysByPublishDate => "cumDeaths28DaysByPublishDate"@,
            Structures::cumDeaths28DaysByPublishDateRate => "cumDeaths28DaysByPublishDateRate"@,
            Structures::newDeaths28DaysByDeathDate => "newDeaths28DaysByDeathDate"@,
            Structures::cumDeaths28DaysByDeathDate => "cumDeaths28DaysByDeathDate"@,
            Structures::cumDeaths28DaysByDeathDateRate => "cumDeaths28DaysByDeathDateRate"@,
        }
    }

    /// What this member stands for, in words.
    pub open spec fn spec_description(self) -> Seq<char> {
        match self {
            Structures::areaType => "Area type as string"@,
            Structures::areaName => "Area name as string"@,
            Structures::areaCode => "Area Code as string"@,
            Structures::date => "Date as string [YYYY-MM-DD]"@,
            Structures::hash => "Unique ID as string"@,
            Structures::newCasesByPublishDate => "New cases by publish date"@,
            Structures::cumCasesByPublishDate => "Cumulative cases by publish date"@,
            Structures::cumCasesBySpecimenDateRate => "Rate of cumulative cases by specimen date per 100k resident population"@,
            Structures::newCasesBySpecimenDate => "New cases by specimen date"@,
            Structures::maleCases => "Male cases (by age)"@,
            Structures::femaleCases => "Female cases (by age)"@,
            Structures::newPillarOneTestsByPublishDate => "New pillar one tests by publish date"@,
            Structures::cumPillarOneTestsByPublishDate => "Cumulative pillar one tests by publish date"@,
            Structures::newPillarTwoTestsByPublishDate => "New pillar two tests by publish date"@,
            Structures::cumPillarTwoTestsByPublishDate => "Cumulative pillar two tests by publish date"@,
            Structures::newPillarThreeTestsByPublishDate => "New pillar three tests by publish date"@,
            Structures::cumPillarThreeTestsByPublishDate => "Cumulative pillar three tests by publish date"@,
            Structures::newPillarFourTestsByPublishDate => "New pillar four tests by publish date"@,
            Structures::cumPillarFourTestsByPublishDate => "Cumulative pillar four tests by publish date"@,
            Structures::newAdmissions => "New admissions"@,
            Structures::cumAdmissions => "Cumulative number of admissions"@,
            Structures::cumAdmissionsByAge => "Cumulative admissions by age"@,
            Structures::newTestsByPublishDate => "New tests by publish date"@,
            Structures::cumTestsByPublishDate => "Cumulative tests by publish date"@,
            Structures::covidOccupiedMVBeds => "COVID-19 occupied beds with mechanical ventilators"@,
            Structures::hospitalCases => "Hospital cases"@,
            Structures::plannedCapacityByPublishDate => "Planned capacity by publish date"@,
            Structures::newDeaths28DaysByPublishDate => "Deaths within 28 days of positive test"@,
            Structures::cumDeaths28DaysByPublishDate => "Cumulative deaths within 28 days of positive test"@,
            Structures::cumDeaths28DaysByPublishDateRate => "Rate of cumulative deaths within 28 days of positive test per 100k resident population"@,
            Structures::newDeaths28DaysByDeathDate => "Deaths within 28 days of positive test by death date"@,
            Structures::cumDeaths28DaysByDeathDate => "Cumulative deaths within 28 days of positive test by death date"@,
            Structures::cumDeaths28DaysByDeathDateRate => "Rate of cumulative deaths within 28 days of positive test by death date per 100k resident population"@,
        }
    }

    /// Every member, in declaration order.
    pub open spec fn spec_all() -> Seq<Structures> {
        seq![
            Structures::areaType,
            Structures::areaName,
            Structures::areaCode,
            Structures::date,
            Structures::hash,
            Structures::newCasesByPublishDate,
            Structures::cumCasesByPublishDate,
            Structures::cumCasesBySpecimenDateRate,
            Structures::newCasesBySpecimenDate,
            Structures::maleCases,
            Structures::femaleCases,
            Structures::newPillarOneTestsByPublishDate,
            Structures::cumPillarOneTestsByPublishDate,
            Structures::newPillarTwoTestsByPublishDate,
            Structures::cumPillarTwoTestsByPublishDate,
            Structures::newPillarThreeTestsByPublishDate,
            Structures::cumPillarThreeTestsByPublishDate,
            Structures::newPillarFourTestsByPublishDate,
            Structures::cumPillarFourTestsByPublishDate,
            Structures::newAdmissions,
            Structures::cumAdmissions,
            Structures::cumAdmissionsByAge,
            Structures::newTestsByPublishDate,
            Structures::cumTestsByPublishDate,
            Structures::covidOccupiedMVBeds,
            Structures::hospitalCases,
            Structures::plannedCapacityByPublishDate,
            Structures::newDeaths28DaysByPublishDate,
            Structures::cumDeaths28DaysByPublishDate,
            Structures::cumDeaths28DaysByPublishDateRate,
            Structures::newDeaths28DaysByDeathDate,
            Structures::cumDeaths28DaysByDeathDate,
            Structures::cumDeaths28DaysByDeathDateRate,
        ]
    }

    /// The tokens of every member, in declaration order.
    pub open spec fn names() -> Seq<Seq<char>> {
        Self::spec_all().map_values(|m: Structures| m.spec_name())
    }

    /// One entry per member, in declaration order: its token and what it stands for.
    pub open spec fn described() -> Seq<Seq<char>> {
        Self::spec_all().map_values(|m: Structures| described_entry(m.spec_name(), m.spec_description()))
    }

    /// Every member's token is listed among the names.
    pub proof fn lemma_listed(self)
        ensures
            Self::names().contains(self.spec_name()),
    {
        match self {
            Structures::areaType => assert(Self::names()[0] == self.spec_name()),
            Structures::areaName => assert(Self::names()[1] == self.spec_name()),
            Structures::areaCode => assert(Self::names()[2] == self.spec_name()),
            Structures::date => assert(Self::names()[3] == self.spec_name()),
            Structures::hash => assert(Self::names()[4] == self.spec_name()),
            Structures::newCasesByPublishDate => assert(Self::names()[5] == self.spec_name()),
            Structures::cumCasesByPublishDate => assert(Self::names()[6] == self.spec_name()),
            Structures::cumCasesBySpecimenDateRate => assert(Self::names()[7] == self.spec_name()),
            Structures::newCasesBySpecimenDate => assert(Self::names()[8] == self.spec_name()),
            Structures::maleCases => assert(Self::names()[9] == self.spec_name()),
            Structures::femaleCases => assert(Self::names()[10] == self.spec_name()),
            Structures::newPillarOneTestsByPublishDate => assert(Self::names()[11] == self.spec_name()),
            Structures::cumPillarOneTestsByPublishDate => assert(Self::names()[12] == self.spec_name()),
            Structures::newPillarTwoTestsByPublishDate => assert(Self::names()[13] == self.spec_name()),
            Structures::cumPillarTwoTestsByPublishDate => assert(Self::names()[14] == self.spec_name()),
            Structures::newPillarThreeTestsByPublishDate => assert(Self::names()[15] == self.spec_name()),
            Structures::cumPillarThreeTestsByPublishDate => assert(Self::names()[16] == self.spec_name()),
            Structures::newPillarFourTestsByPublishDate => assert(Self::names()[17] == self.spec_name()),
            Structures::cumPillarFourTestsByPublishDate => assert(Self::names()[18] == self.spec_name()),
            Structures::newAdmissions => assert(Self::names()[19] == self.spec_name()),
            Structures::cumAdmissions => assert(Self::names()[20] == self.spec_name()),
            Structures::cumAdmissionsByAge => assert(Self::names()[21] == self.spec_name()),
            Structures::newTestsByPublishDate => assert(Self::names()[22] == self.spec_name()),
            Structures::cumTestsByPublishDate => assert(Self::names()[23] == self.spec_name()),
            Structures::covidOccupiedMVBeds => assert(Self::names()[24] == self.spec_name()),
            Structures::hospitalCases => assert(Self::names()[25] == self.spec_name()),
            Structures::plannedCapacityByPublishDate => assert(Self::names()[26] == self.spec_name()),
            Structures::newDeaths28DaysByPublishDate => assert(Self::names()[27] == self.spec_name()),
            Structures::cumDeaths28DaysByPublishDate => assert(Self::names()[28] == self.spec_name()),
            Structures::cumDeaths28DaysByPublishDateRate => assert(Self::names()[29] == self.spec_name()),
            Structures::newDeaths28DaysByDeathDate => assert(Self::names()[30] == self.spec_name()),
            Structures::cumDeaths28DaysByDeathDate => assert(Self::names()[31] == self.spec_name()),
            Structures::cumDeaths28DaysByDeathDateRate => assert(Self::names()[32] == self.spec_name()),
        }
    }

    /// The token that stands for this member in a query.
    pub fn name(&self) -> (r: &'static str)
        ensures
            r@ == self.spec_name(),
    {
        match self {
            Structures::areaType => "areaType",
            Structures::areaName => "areaName",
            Structures::areaCode => "areaCode",
            Structures::date => "date",
            Structures::hash => "hash",
            Structures::newCasesByPublishDate => "newCasesByPublishDate",
            Structures::cumCasesByPublishDate => "cumCasesByPublishDate",
            Structures::cumCasesBySpecimenDateRate => "cumCasesBySpecimenDateRate",
            Structures::newCasesBySpecimenDate => "newCasesBySpecimenDate",
            Structures::maleCases => "maleCases",
            Structures::femaleCases => "femaleCases",
            Structures::newPillarOneTestsByPublishDate => "newPillarOneTestsByPublishDate",
            Structures::cumPillarOneTestsByPublishDate => "cumPillarOneTestsByPublishDate",
            Structures::newPillarTwoTestsByPublishDate => "newPillarTwoTestsByPublishDate",
            Structures::cumPillarTwoTestsByPublishDate => "cumPillarTwoTestsByPublishDate",
            Structures::newPillarThreeTestsByPublishDate => "newPillarThreeTestsByPublishDate",
            Structures::cumPillarThreeTestsByPublishDate => "cumPillarThreeTestsByPublishDate",
            Structures::newPillarFourTestsByPublishDate => "newPillarFourTestsByPublishDate",
            Structures::cumPillarFourTestsByPublishDate => "cumPillarFourTestsByPublishDate",
            Structures::newAdmissions => "newAdmissions",
            Structures::cumAdmissions => "cumAdmissions",
            Structures::cumAdmissionsByAge => "cumAdmissionsByAge",
            Structures::newTestsByPublishDate => "newTestsByPublishDate",
            Structures::cumTestsByPublishDate => "cumTestsByPublishDate",
            Structures::covidOccupiedMVBeds => "covidOccupiedMVBeds",
            Structures::hospitalCases => "hospitalCases",
            Structures::plannedCapacityByPublishDate => "plannedCapacityByPublishDate",
            Structures::newDeaths28DaysByPublishDate => "newDeaths28DaysByPublishDate",
            Structures::cumDeaths28DaysByPublishDate => "cumDeaths28DaysByPublishDate",
            Structures::cumDeaths28DaysByPublishDateRate => "cumDeaths28DaysByPublishDateRate",
            Structures::newDeaths28DaysByDeathDate => "newDeaths28DaysByDeathDate",
            Structures::cumDeaths28DaysByDeathDate => "cumDeaths28DaysByDeathDate",
            Structures::cumDeaths28DaysByDeathDateRate => "cumDeaths28DaysByDeathDateRate",
        }
    }

    /// What this member stands for, in words.
    pub fn description(&self) -> (r: &'static str)
        ensures
            r@ == self.spec_description(),
    {
        match self {
            Structures::areaType => "Area type as string",
            Structures::areaName => "Area name as string",
            Structures::areaCode => "Area Code as string",
            Structures::date => "Date as string [YYYY-MM-DD]",
            Structures::hash => "Unique ID as string",
            Structures::newCasesByPublishDate => "New cases by publish date",
            Structures::cumCasesByPublishDate => "Cumulative cases by publish date",
            Structures::cumCasesBySpecimenDateRate => "Rate of cumulative cases by specimen date per 100k resident population",
            Structures::newCasesBySpecimenDate => "New cases by specimen date",
            Structures::maleCases => "Male cases (by age)",
            Structures::femaleCases => "Female cases (by age)",
            Structures::newPillarOneTestsByPublishDate => "New pillar one tests by publish date",
            Structures::cumPillarOneTestsByPublishDate => "Cumulative pillar one tests by publish date",
            Structures::newPillarTwoTestsByPublishDate => "New pillar two tests by publish date",
            Structures::cumPillarTwoTestsByPublishDate => "Cumulative pillar two tests by publish date",
            Structures::newPillarThreeTestsByPublishDate => "New pillar three tests by publish date",
            Structures::cumPillarThreeTestsByPublishDate => "Cumulative pillar three tests by publish date",
            Structures::newPillarFourTestsByPublishDate => "New pillar four tests by publish date",
            Structures::cumPillarFourTestsByPublishDate => "Cumulative pillar four tests by publish date",
            Structures::newAdmissions => "New admissions",
            Structures::cumAdmissions => "Cumulative number of admissions",
            Structures::cumAdmissionsByAge => "Cumulative admissions by age",
            Structures::newTestsByPublishDate => "New tests by publish date",
            Structures::cumTestsByPublishDate => "Cumulative tests by publish date",
            Structures::covidOccupiedMVBeds => "COVID-19 occupied beds with mechanical ventilators",
            Structures::hospitalCases => "Hospital cases",
            Structures::plannedCapacityByPublishDate => "Planned capacity by publish date",
            Structures::newDeaths28DaysByPublishDate => "Deaths within 28 days of positive test",
            Structures::cumDeaths28DaysByPublishDate => "Cumulative deaths within 28 days of positive test",
            Structures::cumDeaths28DaysByPublishDateRate => "Rate of cumulative deaths within 28 days of positive test per 100k resident population",
            Structures::newDeaths28DaysByDeathDate => "Deaths within 28 days of positive test by death date",
            Structures::cumDeaths28DaysByDeathDate => "Cumulative deaths within 28 days of positive test by death date",
            Structures::cumDeaths28DaysByDeathDateRate => "Rate of cumulative deaths within 28 days of positive test by death date per 100k resident population",
        }
    }

    /// Every member, in declaration order.
    pub fn all() -> (r: Vec<Structures>)
        ensures
            r@ == Self::spec_all(),
    {
        let mut v = Vec::new();
        v.push(Structures::areaType);
        v.push(Structures::areaName);
        v.push(Structures::areaCode);
        v.push(Structures::date);
        v.push(Structures::hash);
        v.push(Structures::newCasesByPublishDate);
        v.push(Structures::cumCasesByPublishDate);
        v.push(Structures::cumCasesBySpecimenDateRate);
        v.push(Structures::newCasesBySpecimenDate);
        v.push(Structures::maleCases);
        v.push(Structures::femaleCases);
        v.push(Structures::newPillarOneTestsByPublishDate);
        v.push(Structures::cumPillarOneTestsByPublishDate);
        v.push(Structures::newPillarTwoTestsByPublishDate);
        v.push(Structures::cumPillarTwoTestsByPublishDate);
        v.push(Structures::newPillarThreeTestsByPublishDate);
        v.push(Structures::cumPillarThreeTestsByPublishDate);
        v.push(Structures::newPillarFourTestsByPublishDate);
        v.push(Structures::cumPillarFourTestsByPublishDate);
        v.push(Structures::newAdmissions);
        v.push(Structures::cumAdmissions);
        v.push(Structures::cumAdmissionsByAge);
        v.push(Structures::newTestsByPublishDate);
        v.push(Structures::cumTestsByPublishDate);
        v.push(Structures::covidOccupiedMVBeds);
        v.push(Structures::hospitalCases);
        v.push(Structures::plannedCapacityByPublishDate);
        v.push(Structures::newDeaths28DaysByPublishDate);
        v.push(Structures::cumDeaths28DaysByPublishDate);
        v.push(Structures::cumDeaths28DaysByPublishDateRate);
        v.push(Structures::newDeaths28DaysByDeathDate);
        v.push(Structures::cumDeaths28DaysByDeathDate);
        v.push(Structures::cumDeaths28DaysByDeathDateRate);
        assert(v@ =~= Self::spec_all());
        v
    }

    /// Every result field, in declaration order.
    pub fn to_vec() -> (r: Vec<String>)
        ensures
            views(r@) == Self::names(),
    {
        let all = Self::all();
        let mut out: Vec<String> = Vec::new();
        let mut i: usize = 0;
        while i < all.len()
            invariant
                0 <= i <= all.len(),
                all@ == Self::spec_all(),
                out@.len() == i,
                forall|j: int| 0 <= j < i ==> #[trigger] out@[j]@ == Self::spec_all()[j].spec_name(),
            decreases all.len() - i,
        {
            out.push(String::from_str(all[i].name()));
            i += 1;
        }
        assert(views(out@) =~= Self::names());
        out
    }

    /// Every result field, one per line.
    pub fn to_string() -> (r: String)
        ensures
            r@ == lines(Self::names()),
    {
        join_lines(&Self::to_vec())
    }

    /// Every member and what it stands for, one member per line.
    pub fn field_description() -> (r: String)
        ensures
            r@ == lines(Self::described()),
    {
        let all = Self::all();
        let mut entries: Vec<String> = Vec::new();
        let mut i: usize = 0;
        while i < all.len()
            invariant
                0 <= i <= all.len(),
                all@ == Self::spec_all(),
                entries@.len() == i,
                forall|j: int| 0 <= j < i ==> #[trigger] entries@[j]@ == described_entry(Self::spec_all()[j].spec_name(), Self::spec_all()[j].spec_description()),
            decreases all.len() - i,
        {
            entries.push(describe_entry(all[i].name(), all[i].description()));
            i += 1;
        }
        assert(views(entries@) =~= Self::described());
        join_lines(&entries)
    }
}

} // verus!
