//! The records that the service exchanges with the client.

use vstd::prelude::*;
use crate::download::Download;
use crate::text::push_decimal;
use crate::text::push_signed_decimal;
use crate::text::decimal;
use crate::text::signed_decimal;

verus! {

/// The decimal text of an unsigned identifier.
pub fn unsigned_text(n: u64) -> (text: String)
    ensures
        text@ == decimal(n as nat),
{
    let mut text = String::new();
    push_decimal(&mut text, n);
    text
}

/// The decimal text of a signed identifier.
pub fn signed_text(i: i64) -> (text: String)
    ensures
        text@ == signed_decimal(i as int),
{
    let mut text = String::new();
    push_signed_decimal(&mut text, i);
    text
}

/// One of the items that a ranking compares.
#[derive(Debug, PartialEq, Eq)]
pub struct Alternative {
    pub alternative_id: i64,
    pub name: String,
    pub description: String,
}

impl Clone for Alternative {
    fn clone(&self) -> (copy: Self)
        ensures
            copy == *self,
    {
        Alternative {
            alternative_id: self.alternative_id,
            name: self.name.clone(),
            description: self.description.clone(),
        }
    }
}

impl Default for Alternative {
    fn default() -> (fresh: Self)
        ensures
            fresh.alternative_id == 0,
            fresh.name@ == "Batman"@,
            fresh.description@ == "Do people still read comic books?"@,
    {
        Alternative {
            alternative_id: 0,
            name: String::from_str("Batman"),
            description: String::from_str("Do people still read comic books?"),
        }
    }
}

impl Alternative {
    /// The cells of the row that lists this alternative: name, description
    /// and identifier.
    pub fn show(&self) -> (cells: Vec<String>)
        ensures
            cells@.len() == 3,
            cells@[0]@ == self.name@,
            cells@[1]@ == self.description@,
            cells@[2]@ == signed_decimal(self.alternative_id as int),
    {
        let mut cells: Vec<String> = Vec::new();
        cells.push(self.name.clone());
        cells.push(self.description.clone());
        cells.push(signed_text(self.alternative_id));
        cells
    }
}

/// A user of the service.
#[derive(Debug, PartialEq, Eq, PartialOrd, Ord)]
pub struct Expert {
    pub expert_id: u64,
    pub name: String,
    pub email: String,
    pub admin: bool,
}

impl Clone for Expert {
    fn clone(&self) -> (copy: Self)
        ensures
            copy == *self,
    {
        Expert {
            expert_id: self.expert_id,
            name: self.name.clone(),
            email: self.email.clone(),
            admin: self.admin,
        }
    }
}

impl Default for Expert {
    fn default() -> (fresh: Self)
        ensures
            fresh.expert_id == 0,
            fresh.name@ == "Bill Nye"@,
            fresh.email@ == "example@example.com"@,
            !fresh.admin,
    {
        Expert {
            expert_id: 0,
            name: String::from_str("Bill Nye"),
            email: String::from_str("example@example.com"),
            admin: false,
        }
    }
}

impl Expert {
    /// The text that names the role of an expert.
    pub open spec fn role(admin: bool) -> Seq<char> {
        if admin {
            "admin"@
        } else {
            "not admin"@
        }
    }

    /// The cells of the row that lists this expert: name, email, role and
    /// identifier.
    pub fn show(&self) -> (cells: Vec<String>)
        ensures
            cells@.len() == 4,
            cells@[0]@ == self.name@,
            cells@[1]@ == self.email@,
            cells@[2]@ == Self::role(self.admin),
            cells@[3]@ == decimal(self.expert_id as nat),
    {
        let mut cells: Vec<String> = Vec::new();
        cells.push(self.name.clone());
        cells.push(self.email.clone());
        if self.admin {
            cells.push(String::from_str("admin"));
        } else {
            cells.push(String::from_str("not admin"));
        }
        cells.push(unsigned_text(self.expert_id));
        cells
    }
}

/// A ranking, with the slot through which its basic parameters are updated.
#[derive(Debug, PartialEq, Eq)]
pub struct Ranking {
    pub description: String,
    pub ranking_id: i64,
    /// Seconds after the Unix epoch at which the ranking closes.
    pub expiring: i64,
    pub download: Download,
}

impl Ranking {
    /// Whether two rankings carry the same record, whatever their slots hold.
    pub open spec fn same_record(self, other: Ranking) -> bool {
        &&& self.description == other.description
        &&& self.ranking_id == other.ranking_id
        &&& self.expiring == other.expiring
    }
}

impl Clone for Ranking {
    /// A copy carries the record and an idle slot: a fetch in flight belongs
    /// to the ranking that was copied.
    fn clone(&self) -> (copy: Self)
        ensures
            copy.same_record(*self),
            copy.download.promise is None,
            copy.download.path == self.download.path,
    {
        Ranking {
            description: self.description.clone(),
            ranking_id: self.ranking_id,
            expiring: self.expiring,
            download: self.download.clone(),
        }
    }
}

impl Default for Ranking {
    fn default() -> (fresh: Self)
        ensures
            fresh.description@ == "Superheroes ranking"@,
            fresh.ranking_id == 0,
            fresh.expiring == 0,
            fresh.download.promise is None,
    {
        Ranking {
            description: String::from_str("Superheroes ranking"),
            ranking_id: 0,
            expiring: 0,
            download: Download::default(),
        }
    }
}

/// One axis along which the alternatives of a ranking are compared.
#[derive(Debug, PartialEq, Eq)]
pub struct Criterion {
    pub criteria_id: i64,
    pub ranking_id: i64,
    pub name: String,
    pub description: String,
}

impl Clone for Criterion {
    fn clone(&self) -> (copy: Self)
        ensures
            copy == *self,
    {
        Criterion {
            criteria_id: self.criteria_id,
            ranking_id: self.ranking_id,
            name: self.name.clone(),
            description: self.description.clone(),
        }
    }
}

impl Default for Criterion {
    fn default() -> (fresh: Self)
        ensures
            fresh.criteria_id == 0,
            fresh.ranking_id == 0,
            fresh.name@ == "Strength"@,
            fresh.description@ == "How strong is the character"@,
    {
        Criterion {
            criteria_id: 0,
            ranking_id: 0,
            name: String::from_str("Strength"),
            description: String::from_str("How strong is the character"),
        }
    }
}

impl Criterion {
    /// The cells of the row that lists this criterion: name, description and
    /// identifier.
    pub fn show(&self) -> (cells: Vec<String>)
        ensures
            cells@.len() == 3,
            cells@[0]@ == self.name@,
            cells@[1]@ == self.description@,
            cells@[2]@ == signed_decimal(self.criteria_id as int),
    {
        let mut cells: Vec<String> = Vec::new();
        cells.push(self.name.clone());
        cells.push(self.description.clone());
        cells.push(signed_text(self.criteria_id));
        cells
    }
}

/// The bits of the weight 1.0 in IEEE 754 single precision.
pub const UNIT_WEIGHT_BITS: u32 = 0x3f80_0000;

/// One level of importance that a criterion can be given.
///
/// The client never computes with the weight: it carries its bits from the
/// service to the screen and back.
#[derive(Debug, PartialEq, Eq)]
pub struct Scale {
    pub scale_id: i64,
    pub description: String,
    /// The weight, as the bits of an IEEE 754 single-precision number.
    pub value_bits: u32,
    pub ranking_id: i64,
}

impl Clone for Scale {
    fn clone(&self) -> (copy: Self)
        ensures
            copy == *self,
    {
        Scale {
            scale_id: self.scale_id,
            description: self.description.clone(),
            value_bits: self.value_bits,
            ranking_id: self.ranking_id,
        }
    }
}

impl Default for Scale {
    fn default() -> (fresh: Self)
        ensures
            fresh.scale_id == 0,
            fresh.description@ == "Very important"@,
            fresh.value_bits == UNIT_WEIGHT_BITS,
            fresh.ranking_id == 0,
    {
        Scale {
            scale_id: 0,
            description: String::from_str("Very important"),
            value_bits: UNIT_WEIGHT_BITS,
            ranking_id: 0,
        }
    }
}

/// How the judgments of one expert become a ranking.
#[derive(Debug, Clone, Copy, PartialEq, Eq, Structural)]
pub enum RankingMethod {
    Evm,
    Gmm,
}

/// How the judgments of several experts are brought together.
#[derive(Debug, Clone, Copy, PartialEq, Eq, Structural)]
pub enum AggregationMethod {
    Aij,
    Aip,
}

/// The choices made on the form of the variables since the last frame.
pub struct VariablesInput {
    pub ranking_method: Option<RankingMethod>,
    pub aggregation_method: Option<AggregationMethod>,
    pub completness_required: Option<bool>,
}

/// The configuration of a ranking.
#[derive(Debug, PartialEq, Eq)]
pub struct Variables {
    pub ranking_method: String,
    pub aggregation_method: String,
    pub completness_required: bool,
    /// Whether the service holds variables for the ranking. Kept by the
    /// client alone.
    pub exists_in_ranking: bool,
    pub download: Download,
}

impl RankingMethod {
    /// The name under which the service knows the method.
    pub open spec fn name(self) -> Seq<char> {
        match self {
            RankingMethod::Evm => "EVM"@,
            RankingMethod::Gmm => "GMM"@,
        }
    }
}

impl AggregationMethod {
    /// The name under which the service knows the method.
    pub open spec fn name(self) -> Seq<char> {
        match self {
            AggregationMethod::Aij => "AIJ"@,
            AggregationMethod::Aip => "AIP"@,
        }
    }
}

/// The warning for a ranking without variables.
pub open spec fn no_variables() -> Seq<char> {
    "There are no variables in the ranking, consider adding them"@
}

impl Variables {
    /// Whether these are the variables that a ranking is offered before it
    /// has any.
    pub open spec fn offered(self) -> bool {
        &&& self.ranking_method@ == RankingMethod::Evm.name()
        &&& self.aggregation_method@ == AggregationMethod::Aip.name()
        &&& self.completness_required
        &&& !self.exists_in_ranking
        &&& self.download.promise is None
    }

    /// Whether `after` is what the variables become by the choices of
    /// `input`.
    pub open spec fn picked(self, input: VariablesInput, after: Variables) -> bool {
        &&& after.ranking_method@ == (match input.ranking_method {
            Some(method) => method.name(),
            None => self.ranking_method@,
        })
        &&& after.aggregation_method@ == (match input.aggregation_method {
            Some(method) => method.name(),
            None => self.aggregation_method@,
        })
        &&& after.completness_required == (match input.completness_required {
            Some(required) => required,
            None => self.completness_required,
        })
        &&& after.exists_in_ranking == self.exists_in_ranking
        &&& after.download == self.download
    }

    /// The variables that a ranking is offered before it has any.
    pub fn default() -> (fresh: Self)
        ensures
            fresh.offered(),
    {
        Variables {
            ranking_method: String::from_str("EVM"),
            aggregation_method: String::from_str("AIP"),
            completness_required: true,
            exists_in_ranking: false,
            download: Download::default(),
        }
    }

    /// Takes over the choices made on the form, and gives the warning to
    /// show if the ranking has no variables yet.
    pub fn show(&mut self, input: &VariablesInput) -> (warning: Option<String>)
        ensures
            old(self).picked(*input, *final(self)),
            old(self).exists_in_ranking ==> warning is None,
            !old(self).exists_in_ranking ==> (warning matches Some(words) && words@
                == no_variables()),
    {
        match input.ranking_method {
            Some(RankingMethod::Evm) => {
                self.ranking_method = String::from_str("EVM");
            },
            Some(RankingMethod::Gmm) => {
                self.ranking_method = String::from_str("GMM");
            },
            None => {},
        }
        match input.aggregation_method {
            Some(AggregationMethod::Aij) => {
                self.aggregation_method = String::from_str("AIJ");
            },
            Some(AggregationMethod::Aip) => {
                self.aggregation_method = String::from_str("AIP");
            },
            None => {},
        }
        match input.completness_required {
            Some(required) => {
                self.completness_required = required;
            },
            None => {},
        }
        if self.exists_in_ranking {
            None
        } else {
            Some(String::from_str("There are no variables in the ranking, consider adding them"))
        }
    }
}

} // verus!
