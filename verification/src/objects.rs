//! The typed records the decoders build: pollution-index readings, pollution
//! alerts, and the small closed enumerations they carry.

use crate::dates::CivilDate;
use crate::error::{ErrModel, RParifError};
use crate::strutil::str_eq;
use vstd::pervasive::cloned;
use vstd::prelude::*;

verus! {

/// A relative day as the HTTP API names it.
#[derive(Clone, Copy, PartialEq, Eq, Structural, Debug)]
pub enum Day {
    Yesterday,
    Today,
    Tomorrow,
}

impl Day {
    /// The query token the API uses for this day.
    pub fn token(&self) -> (r: &'static str)
        ensures
            match self {
                Day::Yesterday => r@ == "hier"@,
                Day::Today => r@ == "jour"@,
                Day::Tomorrow => r@ == "demain"@,
            },
    {
        match self {
            Day::Yesterday => "hier",
            Day::Today => "jour",
            Day::Tomorrow => "demain",
        }
    }
}

/// Severity of a pollution alert.
#[derive(Clone, Copy, PartialEq, Eq, Structural, Hash, Debug)]
pub enum Level {
    Info,
    Alert,
    Normal,
}

/// The level token `s` names, if any.
pub open spec fn spec_level_of(s: Seq<char>) -> Option<Level> {
    if s == "info"@ {
        Some(Level::Info)
    } else if s == "alerte"@ {
        Some(Level::Alert)
    } else if s == "normal"@ {
        Some(Level::Normal)
    } else {
        None
    }
}

impl Level {
    /// Parses an alert-severity token.
    pub fn from_str(s: &str) -> (r: Result<Level, RParifError>)
        ensures
            match r {
                Ok(l) => spec_level_of(s@) == Some(l),
                Err(e) => spec_level_of(s@) is None && e.model() == ErrModel::UnknownEnumValue(s@),
            },
    {
        if str_eq(s, "info") {
            Ok(Level::Info)
        } else if str_eq(s, "alerte") {
            Ok(Level::Alert)
        } else if str_eq(s, "normal") {
            Ok(Level::Normal)
        } else {
            Err(RParifError::UnknownEnumValue(String::from_str(s)))
        }
    }
}

/// Whether an alert was forecast or observed.
#[derive(Clone, Copy, PartialEq, Eq, Structural, Hash, Debug)]
pub enum Type {
    /// The alert was forecast.
    Forecast,
    /// The alert was observed.
    Observed,
}

/// The alert kind token `s` names, if any.
pub open spec fn spec_type_of(s: Seq<char>) -> Option<Type> {
    if s == "prevu"@ {
        Some(Type::Forecast)
    } else if s == "constate"@ {
        Some(Type::Observed)
    } else {
        None
    }
}

impl Type {
    /// Parses an alert-kind token.
    pub fn from_str(s: &str) -> (r: Result<Type, RParifError>)
        ensures
            match r {
                Ok(t) => spec_type_of(s@) == Some(t),
                Err(e) => spec_type_of(s@) is None && e.model() == ErrModel::UnknownEnumValue(s@),
            },
    {
        if str_eq(s, "prevu") {
            Ok(Type::Forecast)
        } else if str_eq(s, "constate") {
            Ok(Type::Observed)
        } else {
            Err(RParifError::UnknownEnumValue(String::from_str(s)))
        }
    }
}

/// A threshold that can raise an alert.
#[derive(Clone, Copy, PartialEq, Eq, Structural, Hash, Debug)]
pub enum Criteria {
    /// More than 100 square kilometres are affected.
    Area,
    /// More than 10% of the population is affected.
    Population,
}

impl DeepView for Criteria {
    type V = Criteria;

    open spec fn deep_view(&self) -> Criteria {
        *self
    }
}

/// The criterion token `s` names, if any.
pub open spec fn spec_criteria_of(s: Seq<char>) -> Option<Criteria> {
    if s == "km"@ {
        Some(Criteria::Area)
    } else if s == "pop"@ {
        Some(Criteria::Population)
    } else {
        None
    }
}

impl Criteria {
    /// Parses an alert-criterion token.
    pub fn from_str(s: &str) -> (r: Result<Criteria, RParifError>)
        ensures
            match r {
                Ok(c) => spec_criteria_of(s@) == Some(c),
                Err(e) => spec_criteria_of(s@) is None && e.model() == ErrModel::UnknownEnumValue(
                    s@,
                ),
            },
    {
        if str_eq(s, "km") {
            Ok(Criteria::Area)
        } else if str_eq(s, "pop") {
            Ok(Criteria::Population)
        } else {
            Err(RParifError::UnknownEnumValue(String::from_str(s)))
        }
    }
}

/// The mathematical shape of an `Index`.
pub ghost struct IndexModel {
    pub date: CivilDate,
    pub url: Option<Seq<char>>,
    pub pollutants: Seq<Seq<char>>,
    pub index: u32,
    pub insee: Option<Seq<char>>,
}

/// One pollution-index reading: a date, the pollutants the reading
/// aggregates, the index value, an optional link to a map and an optional
/// INSEE city code when the reading is city-scoped.
#[derive(PartialEq, Hash, Debug)]
pub struct Index {
    date: CivilDate,
    url: Option<String>,
    pollutants: Vec<String>,
    index: u32,
    insee: Option<String>,
}

impl DeepView for Index {
    type V = IndexModel;

    closed spec fn deep_view(&self) -> IndexModel {
        IndexModel {
            date: self.date,
            url: self.url.deep_view(),
            pollutants: self.pollutants.deep_view(),
            index: self.index,
            insee: self.insee.deep_view(),
        }
    }
}

/// Clones an optional string, keeping its characters.
fn clone_opt_string(o: &Option<String>) -> (r: Option<String>)
    ensures
        r.deep_view() == o.deep_view(),
{
    match o {
        Option::None => Option::None,
        Option::Some(s) => Option::Some(s.clone()),
    }
}

/// Clones a vector of strings, keeping every element's characters.
fn clone_string_vec(v: &Vec<String>) -> (r: Vec<String>)
    ensures
        r.deep_view() == v.deep_view(),
{
    let r = v.clone();
    proof {
        assert forall|i: int| 0 <= i < r@.len() implies r.deep_view()[i] == v.deep_view()[i] by {
            assert(cloned::<String>(v@[i], r@[i]));
        }
        assert(r.deep_view() =~= v.deep_view());
    }
    r
}

impl Clone for Index {
    /// Clones the reading; the copy carries the same values.
    fn clone(&self) -> (r: Index)
        ensures
            r.deep_view() == self.deep_view(),
    {
        Index {
            date: self.date,
            url: clone_opt_string(&self.url),
            pollutants: clone_string_vec(&self.pollutants),
            index: self.index,
            insee: clone_opt_string(&self.insee),
        }
    }
}

impl Index {
    /// Builds a reading from its parts.
    pub fn new(
        date: CivilDate,
        url: Option<String>,
        pollutants: Vec<String>,
        index: u32,
        insee: Option<String>,
    ) -> (r: Index)
        ensures
            r.deep_view() == (IndexModel {
                date,
                url: url.deep_view(),
                pollutants: pollutants.deep_view(),
                index,
                insee: insee.deep_view(),
            }),
    {
        Index { date, url, pollutants, index, insee }
    }

    /// The date of the reading.
    pub fn date(&self) -> (r: CivilDate)
        ensures
            r == self.deep_view().date,
    {
        self.date
    }

    /// The link to a pollution map, when the service supplied one.
    pub fn map_url(&self) -> (r: Option<String>)
        ensures
            r.deep_view() == self.deep_view().url,
    {
        clone_opt_string(&self.url)
    }

    /// The pollutants the reading aggregates, in source order.
    pub fn pollutants(&self) -> (r: Vec<String>)
        ensures
            r.deep_view() == self.deep_view().pollutants,
    {
        clone_string_vec(&self.pollutants)
    }

    /// The pollution index value.
    pub fn index(&self) -> (r: u32)
        ensures
            r == self.deep_view().index,
    {
        self.index
    }

    /// The INSEE code of the city the reading is scoped to, if any.
    pub fn insee(&self) -> (r: Option<String>)
        ensures
            r.deep_view() == self.deep_view().insee,
    {
        clone_opt_string(&self.insee)
    }
}

/// The mathematical shape of a `PollutantEpisode`.
pub ghost struct PollutantModel {
    pub pollutant: Seq<char>,
    pub kind: Type,
    pub level: Level,
    pub criteria: Seq<Criteria>,
}

/// The alert detail for one pollutant: its name, whether the alert was
/// forecast or observed, its severity, and the thresholds that raised it.
#[derive(PartialEq, Hash, Debug)]
pub struct PollutantEpisode {
    pollutant: String,
    kind: Type,
    level: Level,
    criteria: Vec<Criteria>,
}

impl DeepView for PollutantEpisode {
    type V = PollutantModel;

    closed spec fn deep_view(&self) -> PollutantModel {
        PollutantModel {
            pollutant: self.pollutant@,
            kind: self.kind,
            level: self.level,
            criteria: self.criteria.deep_view(),
        }
    }
}

/// Clones a vector of criteria, keeping every element.
fn clone_criteria_vec(v: &Vec<Criteria>) -> (r: Vec<Criteria>)
    ensures
        r.deep_view() == v.deep_view(),
{
    let r = v.clone();
    proof {
        assert forall|i: int| 0 <= i < r@.len() implies r.deep_view()[i] == v.deep_view()[i] by {
            assert(cloned::<Criteria>(v@[i], r@[i]));
        }
        assert(r.deep_view() =~= v.deep_view());
    }
    r
}

impl Clone for PollutantEpisode {
    /// Clones the detail; the copy carries the same values.
    fn clone(&self) -> (r: PollutantEpisode)
        ensures
            r.deep_view() == self.deep_view(),
    {
        PollutantEpisode {
            pollutant: self.pollutant.clone(),
            kind: self.kind,
            level: self.level,
            criteria: clone_criteria_vec(&self.criteria),
        }
    }
}

impl PollutantEpisode {
    /// The name of the pollutant.
    pub fn pollutant_name(&self) -> (r: String)
        ensures
            r@ == self.deep_view().pollutant,
    {
        self.pollutant.clone()
    }

    /// Whether the alert was forecast or observed.
    pub fn kind(&self) -> (r: Type)
        ensures
            r == self.deep_view().kind,
    {
        self.kind
    }

    /// The severity of the alert for this pollutant.
    pub fn level(&self) -> (r: Level)
        ensures
            r == self.deep_view().level,
    {
        self.level
    }

    /// The thresholds that raised the alert, in source order.
    pub fn criteria(&self) -> (r: Vec<Criteria>)
        ensures
            r.deep_view() == self.deep_view().criteria,
    {
        clone_criteria_vec(&self.criteria)
    }
}

/// The mathematical shape of an `Episode`.
pub ghost struct EpisodeModel {
    pub date: CivilDate,
    pub detail: Option<Seq<char>>,
    pub pollutants: Seq<PollutantModel>,
}

/// A pollution alert for one date: an optional advisory text and the alert
/// details per pollutant, in the order they were met while decoding.
#[derive(PartialEq, Hash, Debug)]
pub struct Episode {
    date: CivilDate,
    detail: Option<String>,
    pollutants: Vec<PollutantEpisode>,
}

impl DeepView for Episode {
    type V = EpisodeModel;

    closed spec fn deep_view(&self) -> EpisodeModel {
        EpisodeModel {
            date: self.date,
            detail: self.detail.deep_view(),
            pollutants: self.pollutants.deep_view(),
        }
    }
}

impl Clone for Episode {
    /// Clones the alert; the copy carries the same values.
    fn clone(&self) -> (r: Episode)
        ensures
            r.deep_view() == self.deep_view(),
    {
        let mut pollutants: Vec<PollutantEpisode> = Vec::new();
        let mut i: usize = 0;
        while i < self.pollutants.len()
            invariant
                i <= self.pollutants@.len(),
                pollutants@.len() == i,
                forall|j: int|
                    0 <= j < i ==> #[trigger] pollutants@[j].deep_view()
                        == self.pollutants@[j].deep_view(),
            decreases self.pollutants@.len() - i,
        {
            pollutants.push(self.pollutants[i].clone());
            i = i + 1;
        }
        proof {
            assert(pollutants.deep_view() =~= self.pollutants.deep_view());
        }
        Episode { date: self.date, detail: clone_opt_string(&self.detail), pollutants }
    }
}

impl Episode {
    /// Builds an alert with no pollutant details yet.
    pub fn new(date: CivilDate, detail: Option<String>) -> (r: Episode)
        ensures
            r.deep_view() == (EpisodeModel {
                date,
                detail: detail.deep_view(),
                pollutants: Seq::<PollutantModel>::empty(),
            }),
    {
        let r = Episode { date, detail, pollutants: Vec::new() };
        proof {
            assert(r.deep_view().pollutants =~= Seq::<PollutantModel>::empty());
        }
        r
    }

    /// Appends the alert detail for one pollutant.
    pub fn add(&mut self, pollutant: String, kind: Type, level: Level, criteria: Vec<Criteria>)
        ensures
            final(self).deep_view() == (EpisodeModel {
                date: old(self).deep_view().date,
                detail: old(self).deep_view().detail,
                pollutants: old(self).deep_view().pollutants.push(
                    PollutantModel {
                        pollutant: pollutant@,
                        kind,
                        level,
                        criteria: criteria.deep_view(),
                    },
                ),
            }),
    {
        let ghost entry = PollutantModel {
            pollutant: pollutant@,
            kind,
            level,
            criteria: criteria.deep_view(),
        };
        self.pollutants.push(PollutantEpisode { pollutant, kind, level, criteria });
        proof {
            assert(self.deep_view().pollutants =~= old(self).deep_view().pollutants.push(entry));
        }
    }

    /// The date of the alert.
    pub fn date(&self) -> (r: CivilDate)
        ensures
            r == self.deep_view().date,
    {
        self.date
    }

    /// The advisory text, when the service supplied a non-empty one.
    pub fn detail(&self) -> (r: Option<String>)
        ensures
            r.deep_view() == self.deep_view().detail,
    {
        clone_opt_string(&self.detail)
    }

    /// The alert details per pollutant, in the order they were decoded.
    pub fn pollutants(&self) -> (r: Vec<PollutantEpisode>)
        ensures
            r.deep_view() == self.deep_view().pollutants,
    {
        let mut r: Vec<PollutantEpisode> = Vec::new();
        let mut i: usize = 0;
        while i < self.pollutants.len()
            invariant
                i <= self.pollutants@.len(),
                r@.len() == i,
                forall|j: int|
                    0 <= j < i ==> #[trigger] r@[j].deep_view() == self.pollutants@[j].deep_view(),
            decreases self.pollutants@.len() - i,
        {
            r.push(self.pollutants[i].clone());
            i = i + 1;
        }
        proof {
            assert(r.deep_view() =~= self.deep_view().pollutants);
        }
        r
    }

    /// Hands the alert over to an iterator over its pollutant details.
    pub fn into_iter(self) -> (it: PollutantEpisodeIter)
        ensures
            it.remaining() == self.deep_view().pollutants,
    {
        let it = PollutantEpisodeIter { episode: self, i: 0 };
        proof {
            assert(it.remaining() =~= it.episode.deep_view().pollutants);
        }
        it
    }
}

/// Walks the pollutant details of an `Episode`, first to last.
pub struct PollutantEpisodeIter {
    episode: Episode,
    i: usize,
}

impl PollutantEpisodeIter {
    /// The details not yet handed out, in order.
    pub closed spec fn remaining(self) -> Seq<PollutantModel> {
        if self.i as int <= self.episode.deep_view().pollutants.len() {
            self.episode.deep_view().pollutants.skip(self.i as int)
        } else {
            Seq::empty()
        }
    }

    /// The next pollutant detail, if one is left.
    pub fn next(&mut self) -> (r: Option<PollutantEpisode>)
        ensures
            match r {
                Some(p) => old(self).remaining().len() > 0 && p.deep_view() == old(
                    self,
                ).remaining()[0] && final(self).remaining() == old(self).remaining().drop_first(),
                None => old(self).remaining().len() == 0 && final(self).remaining() == old(
                    self,
                ).remaining(),
            },
    {
        if self.i < self.episode.pollutants.len() {
            let p = self.episode.pollutants[self.i].clone();
            self.i = self.i + 1;
            proof {
                assert(self.remaining() =~= old(self).remaining().drop_first());
            }
            Some(p)
        } else {
            None
        }
    }
}

} // verus!
