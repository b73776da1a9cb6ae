//! The lists that belong to a ranking, and where the service keeps them.

use vstd::prelude::*;
use crate::schema::Alternative;
use crate::schema::Criterion;
use crate::schema::Expert;
use crate::schema::Scale;
use crate::schema::signed_text;
use crate::schema::unsigned_text;
use crate::text::address;
use crate::text::decimal;
use crate::text::endpoint;
use crate::text::signed_decimal;
use crate::view::Slot;

verus! {

/// One of the lists of a ranking.
#[derive(Debug, Clone, Copy, PartialEq, Eq, Structural)]
pub enum Section {
    Alternatives,
    Experts,
    Criteria,
    Scale,
}

impl Section {
    /// The slot through which the list is read and changed.
    pub open spec fn slot_of(self) -> Slot {
        match self {
            Section::Alternatives => Slot::Alternatives,
            Section::Experts => Slot::Experts,
            Section::Criteria => Slot::Criteria,
            Section::Scale => Slot::Scale,
        }
    }

    /// The path under which the list is read.
    pub open spec fn list_path(self) -> Seq<char> {
        match self {
            Section::Alternatives => "/all_alternatives/"@,
            Section::Experts => "/experts/"@,
            Section::Criteria => "/criteria/"@,
            Section::Scale => "/get_scale/"@,
        }
    }

    /// The path under which an item is added.
    pub open spec fn create_path(self) -> Seq<char> {
        match self {
            Section::Alternatives => "/create_alternative/"@,
            Section::Experts => "/create_expert/"@,
            Section::Criteria => "/create_criteria/"@,
            Section::Scale => "/create_scale/"@,
        }
    }

    /// The path under which an item is deleted.
    pub open spec fn delete_path(self) -> Seq<char> {
        match self {
            Section::Alternatives => "/alternative/"@,
            Section::Experts => "/experts/"@,
            Section::Criteria => "/criteria/"@,
            Section::Scale => "/scale/"@,
        }
    }

    /// The address from which the list of a ranking is read.
    pub open spec fn list_address(self, base_url: Seq<char>, ranking_id: int) -> Seq<char> {
        address(base_url, self.list_path(), ranking_id)
    }

    /// The address to which a new item of a ranking is posted.
    pub open spec fn create_address(self, base_url: Seq<char>, ranking_id: int) -> Seq<char> {
        address(base_url, self.create_path(), ranking_id)
    }

    /// The address at which the item with the key `key` is deleted.
    pub open spec fn delete_address(self, base_url: Seq<char>, ranking_id: int, key: Seq<char>) -> Seq<
        char,
    > {
        address(base_url, self.delete_path(), ranking_id) + "/"@ + key
    }

    /// The slot through which the list is read and changed.
    pub fn slot(self) -> (slot: Slot)
        ensures
            slot == self.slot_of(),
    {
        match self {
            Section::Alternatives => Slot::Alternatives,
            Section::Experts => Slot::Experts,
            Section::Criteria => Slot::Criteria,
            Section::Scale => Slot::Scale,
        }
    }

    /// Builds [`Section::list_address`].
    pub fn list_url(self, base_url: &str, ranking_id: i64) -> (url: String)
        ensures
            url@ == self.list_address(base_url@, ranking_id as int),
    {
        let path = match self {
            Section::Alternatives => "/all_alternatives/",
            Section::Experts => "/experts/",
            Section::Criteria => "/criteria/",
            Section::Scale => "/get_scale/",
        };
        endpoint(base_url, path, ranking_id)
    }

    /// Builds [`Section::create_address`].
    pub fn create_url(self, base_url: &str, ranking_id: i64) -> (url: String)
        ensures
            url@ == self.create_address(base_url@, ranking_id as int),
    {
        let path = match self {
            Section::Alternatives => "/create_alternative/",
            Section::Experts => "/create_expert/",
            Section::Criteria => "/create_criteria/",
            Section::Scale => "/create_scale/",
        };
        endpoint(base_url, path, ranking_id)
    }

    /// Builds [`Section::delete_address`].
    pub fn delete_url(self, base_url: &str, ranking_id: i64, key: &str) -> (url: String)
        ensures
            url@ == self.delete_address(base_url@, ranking_id as int, key@),
    {
        let path = match self {
            Section::Alternatives => "/alternative/",
            Section::Experts => "/experts/",
            Section::Criteria => "/criteria/",
            Section::Scale => "/scale/",
        };
        let mut url = endpoint(base_url, path, ranking_id);
        url.append("/");
        url.append(key);
        url
    }
}

/// An item of a list of a ranking: it has a key under which the service
/// knows it.
pub trait Listed {
    /// The key as it stands in an address.
    spec fn key_text(&self) -> Seq<char>;

    /// The key as it stands in an address.
    fn key(&self) -> (text: String)
        ensures
            text@ == self.key_text(),
    ;
}

impl Listed for Alternative {
    open spec fn key_text(&self) -> Seq<char> {
        signed_decimal(self.alternative_id as int)
    }

    fn key(&self) -> (text: String) {
        signed_text(self.alternative_id)
    }
}

impl Listed for Expert {
    open spec fn key_text(&self) -> Seq<char> {
        decimal(self.expert_id as nat)
    }

    fn key(&self) -> (text: String) {
        unsigned_text(self.expert_id)
    }
}

impl Listed for Criterion {
    open spec fn key_text(&self) -> Seq<char> {
        signed_decimal(self.criteria_id as int)
    }

    fn key(&self) -> (text: String) {
        signed_text(self.criteria_id)
    }
}

impl Listed for Scale {
    open spec fn key_text(&self) -> Seq<char> {
        signed_decimal(self.scale_id as int)
    }

    fn key(&self) -> (text: String) {
        signed_text(self.scale_id)
    }
}

} // verus!
