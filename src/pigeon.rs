//! Pigeon records as the pedigree logic sees them, and the requests that
//! create, change and search them.
use vstd::prelude::*;

verus! {

/// One pigeon in a pedigree, tagged with the generation at which a walk
/// reached it (1: the pigeon itself, 2: its parents, 3: grandparents, ...).
#[derive(Debug, Clone)]
pub struct PedigreeNode {
    pub id: i32,
    pub ring_number: String,
    pub year: i32,
    pub name: Option<String>,
    /// Father.
    pub sire_id: Option<i32>,
    /// Mother.
    pub dam_id: Option<i32>,
    pub generation: i32,
    /// 0: male, 1: female, 2: unknown.
    pub sex: i32,
    pub color: Option<String>,
    pub strain: Option<String>,
    pub loft: Option<String>,
}

/// The node `n` with its generation replaced by `g`.
pub open spec fn tagged(n: PedigreeNode, g: int) -> PedigreeNode {
    PedigreeNode { generation: g as i32, ..n }
}

/// A copy of an optional text field.
pub fn copy_text(t: &Option<String>) -> (r: Option<String>)
    ensures
        r == *t,
{
    match t {
        Some(s) => Some(s.clone()),
        None => None,
    }
}

impl PedigreeNode {
    /// A copy of this node that carries the given generation.
    pub fn at_generation(&self, generation: i32) -> (r: PedigreeNode)
        ensures
            r == tagged(*self, generation as int),
    {
        PedigreeNode {
            id: self.id,
            ring_number: self.ring_number.clone(),
            year: self.year,
            name: copy_text(&self.name),
            sire_id: self.sire_id,
            dam_id: self.dam_id,
            generation,
            sex: self.sex,
            color: copy_text(&self.color),
            strain: copy_text(&self.strain),
            loft: copy_text(&self.loft),
        }
    }

    /// A copy of this node.
    pub fn duplicate(&self) -> (r: PedigreeNode)
        ensures
            r == *self,
    {
        self.at_generation(self.generation)
    }
}

/// The pedigree of one pigeon: its ancestors and descendants.
#[derive(Debug, Clone)]
pub struct PedigreeTree {
    pub root_pigeon: PedigreeNode,
    pub ancestors: Vec<PedigreeNode>,
    pub descendants: Vec<PedigreeNode>,
    /// The generation ceiling the tree was built with.
    pub generations: i32,
}

/// How two pigeons are related.
#[derive(Debug, Clone)]
pub struct RelationshipResult {
    pub pigeon1_id: i32,
    pub pigeon2_id: i32,
    /// "sire", "dam", "sibling" or "unrelated".
    pub relationship_type: String,
    pub distance: i32,
    pub common_ancestors: Vec<PedigreeNode>,
    pub relationship_description: String,
}

/// Filters of a bloodline search.
#[derive(Debug, Clone)]
pub struct BloodlineSearch {
    pub ancestor_id: Option<i32>,
    pub ring_number: Option<String>,
    pub year: Option<i32>,
    pub max_generations: Option<i32>,
    pub include_descendants: bool,
}

/// New parents of a pigeon; an absent parent keeps its current value.
#[derive(Debug, Clone)]
pub struct ParentRelationshipUpdate {
    pub pigeon_id: i32,
    pub sire_id: Option<i32>,
    pub dam_id: Option<i32>,
}

/// A pigeon to register.
#[derive(Debug, Clone)]
pub struct CreatePigeonRequest {
    pub ring_number: String,
    pub year: i32,
    pub name: Option<String>,
    pub color: Option<String>,
    pub sex: i32,
    pub strain: Option<String>,
    pub loft: Option<String>,
    pub image_path: Option<String>,
    pub sire_ring_number: Option<String>,
    pub sire_year: Option<i32>,
    pub dam_ring_number: Option<String>,
    pub dam_year: Option<i32>,
    pub sire_id: Option<i64>,
    pub dam_id: Option<i64>,
    pub extra_fields: Option<String>,
}

/// Partial update of a pigeon; absent fields keep their value.
#[derive(Debug, Clone)]
pub struct UpdatePigeonRequest {
    pub name: Option<String>,
    pub color: Option<String>,
    pub sex: Option<i32>,
    pub strain: Option<String>,
    pub loft: Option<String>,
    pub status: Option<i32>,
    pub image_path: Option<String>,
    pub sire_ring_number: Option<String>,
    pub sire_year: Option<i32>,
    pub dam_ring_number: Option<String>,
    pub dam_year: Option<i32>,
    pub sire_id: Option<i64>,
    pub dam_id: Option<i64>,
    pub extra_fields: Option<String>,
}

/// Filters of a pigeon search.
#[derive(Debug, Clone)]
pub struct PigeonSearchParams {
    pub query: Option<String>,
    pub sex: Option<i32>,
    pub year: Option<i32>,
    pub strain: Option<String>,
    pub loft: Option<String>,
    pub status: Option<i32>,
    pub limit: Option<i32>,
    pub offset: Option<i32>,
}

} // verus!
