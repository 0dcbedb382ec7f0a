//! The pedigree graph: an arena of pigeons addressed by id, each naming its
//! sire and dam, and the walks over it.
use vstd::prelude::*;
use vstd::string::StringExecFns;
use crate::pigeon::{PedigreeNode, PedigreeTree, RelationshipResult, ParentRelationshipUpdate, tagged};

verus! {

/// Why a pedigree query could not be answered.
#[derive(Debug, Clone, Copy, PartialEq, Eq, Structural)]
pub enum PedigreeError {
    /// A pigeon that the query needs is not in the pedigree.
    NotFound,
    /// Following one parent line came back to a pigeon already on it.
    CycleDetected,
}

/// `i` is the first position of `s` that holds the pigeon `id`.
pub open spec fn first_index(s: Seq<PedigreeNode>, id: i32, i: int) -> bool {
    &&& 0 <= i < s.len()
    &&& s[i].id == id
    &&& forall|j: int| 0 <= j < i ==> s[j].id != id
}

/// The pedigree holds the pigeon `id`.
pub open spec fn has_id(s: Seq<PedigreeNode>, id: i32) -> bool {
    exists|i: int| first_index(s, id, i)
}

/// The record of the pigeon `id` (the first one, should several share it).
pub open spec fn node_of(s: Seq<PedigreeNode>, id: i32) -> PedigreeNode {
    s[choose|i: int| first_index(s, id, i)]
}

/// The first position of an id is unique, so it is the one `node_of` reads.
pub proof fn lemma_first_index_unique(s: Seq<PedigreeNode>, id: i32, i: int)
    requires
        first_index(s, id, i),
    ensures
        has_id(s, id),
        node_of(s, id) == s[i],
{
    let k = choose|k: int| first_index(s, id, k);
    assert(first_index(s, id, k));
    if k < i {
        assert(s[k].id != id);
    } else if k > i {
        assert(s[i].id != id);
    }
}

/// The nodes reached from `parent` by following parent links, in depth-first
/// preorder, tagged with their generation; `parent` itself is at generation
/// `g`, and nothing beyond `max` is visited. With `sire_first` the sire's
/// branch comes before the dam's, else after it. A missing parent ends its
/// branch.
pub open spec fn ancestor_walk(
    s: Seq<PedigreeNode>,
    parent: Option<i32>,
    g: int,
    max: int,
    sire_first: bool,
) -> Seq<PedigreeNode>
    decreases max - g + 1,
{
    match parent {
        None => seq![],
        Some(id) => {
            if g > max || !has_id(s, id) {
                seq![]
            } else {
                let n = node_of(s, id);
                let first = if sire_first { n.sire_id } else { n.dam_id };
                let second = if sire_first { n.dam_id } else { n.sire_id };
                seq![tagged(n, g)] + ancestor_walk(s, first, g + 1, max, sire_first)
                    + ancestor_walk(s, second, g + 1, max, sire_first)
            }
        }
    }
}

/// An arena of pigeons; a pigeon names its parents by id.
#[derive(Debug, Clone)]
pub struct Pedigree {
    pub nodes: Vec<PedigreeNode>,
}

impl View for Pedigree {
    type V = Seq<PedigreeNode>;

    open spec fn view(&self) -> Seq<PedigreeNode> {
        self.nodes@
    }
}

impl Pedigree {
    /// A pedigree over the given pigeons.
    pub fn new(nodes: Vec<PedigreeNode>) -> (r: Pedigree)
        ensures
            r@ == nodes@,
    {
        Pedigree { nodes }
    }

    /// The position of the pigeon `id`, if the pedigree holds it.
    pub fn find(&self, id: i32) -> (r: Option<usize>)
        ensures
            match r {
                Some(i) => first_index(self@, id, i as int),
                None => !has_id(self@, id),
            },
    {
        let mut i: usize = 0;
        while i < self.nodes.len()
            invariant
                0 <= i <= self@.len(),
                forall|j: int| 0 <= j < i ==> self@[j].id != id,
            decreases self@.len() - i,
        {
            if self.nodes[i].id == id {
                return Some(i);
            }
            i = i + 1;
        }
        None
    }

    /// Appends to `out` the walk from `parent` (see `ancestor_walk`).
    pub fn walk_into(
        &self,
        parent: Option<i32>,
        generation: i32,
        max_generations: i32,
        sire_first: bool,
        out: &mut Vec<PedigreeNode>,
    )
        ensures
            final(out)@ == old(out)@ + ancestor_walk(
                self@,
                parent,
                generation as int,
                max_generations as int,
                sire_first,
            ),
        decreases max_generations - generation + 1,
    {
        let ghost s = self@;
        let ghost start = out@;
        match parent {
            None => {
                assert(out@ =~= start + Seq::<PedigreeNode>::empty());
            },
            Some(id) => {
                if generation > max_generations {
                    assert(out@ =~= start + Seq::<PedigreeNode>::empty());
                    return;
                }
                match self.find(id) {
                    None => {
                        assert(out@ =~= start + Seq::<PedigreeNode>::empty());
                    },
                    Some(i) => {
                        proof {
                            lemma_first_index_unique(s, id, i as int);
                        }
                        let n = &self.nodes[i];
                        let first = if sire_first {
                            n.sire_id
                        } else {
                            n.dam_id
                        };
                        let second = if sire_first {
                            n.dam_id
                        } else {
                            n.sire_id
                        };
                        out.push(n.at_generation(generation));
                        let ghost w1 = ancestor_walk(
                            s,
                            first,
                            generation + 1,
                            max_generations as int,
                            sire_first,
                        );
                        let ghost w2 = ancestor_walk(
                            s,
                            second,
                            generation + 1,
                            max_generations as int,
                            sire_first,
                        );
                        if generation < max_generations {
                            self.walk_into(first, generation + 1, max_generations, sire_first, out);
                            self.walk_into(second, generation + 1, max_generations, sire_first, out);
                        } else {
                            assert(w1 =~= Seq::<PedigreeNode>::empty());
                            assert(w2 =~= Seq::<PedigreeNode>::empty());
                        }
                        assert(out@ =~= start + (seq![tagged(*n, generation as int)] + w1 + w2));
                    },
                }
            },
        }
    }
}

/// Appends to `ancestors` the pigeon `parent_id` at `generation` and, sire
/// branch first, its ancestors up to `max_generations`.
pub fn collect_ancestors(
    pedigree: &Pedigree,
    parent_id: Option<i32>,
    generation: i32,
    max_generations: i32,
    ancestors: &mut Vec<PedigreeNode>,
)
    ensures
        final(ancestors)@ == old(ancestors)@ + ancestor_walk(
            pedigree@,
            parent_id,
            generation as int,
            max_generations as int,
            true,
        ),
{
    pedigree.walk_into(parent_id, generation, max_generations, true, ancestors);
}

/// The generation ceiling of a full ancestor collection.
pub const FULL_DEPTH: i32 = 10;

/// The pigeon itself (generation 1) and its ancestors up to the tenth
/// generation, sire branch first.
pub fn collect_all_ancestors(pedigree: &Pedigree, pigeon_id: i32) -> (r: Vec<PedigreeNode>)
    ensures
        r@ == ancestor_walk(pedigree@, Some(pigeon_id), 1, FULL_DEPTH as int, true),
{
    let mut ancestors: Vec<PedigreeNode> = Vec::new();
    collect_ancestors(pedigree, Some(pigeon_id), 1, FULL_DEPTH, &mut ancestors);
    assert(ancestors@ =~= ancestor_walk(pedigree@, Some(pigeon_id), 1, FULL_DEPTH as int, true));
    ancestors
}

/// The generation ceiling of a pedigree tree when none is given.
pub const DEFAULT_TREE_DEPTH: i32 = 4;

/// The pedigree tree of a pigeon: the pigeon at generation 1, then its
/// sire's ancestry and its dam's ancestry from generation 2 up to
/// `max_generations` (4 when absent). Fails when the pigeon is not there.
pub fn get_pigeon_pedigree(
    pedigree: &Pedigree,
    pigeon_id: i64,
    max_generations: Option<i32>,
) -> (r: Result<PedigreeTree, PedigreeError>)
    ensures
        ({
            let s = pedigree@;
            let id = #[verifier::truncate] (pigeon_id as i32);
            let max = match max_generations {
                Some(m) => m as int,
                None => DEFAULT_TREE_DEPTH as int,
            };
            match r {
                Ok(t) => has_id(s, id) && t.root_pigeon == tagged(node_of(s, id), 1)
                    && t.ancestors@ == ancestor_walk(s, node_of(s, id).sire_id, 2, max, true)
                    + ancestor_walk(s, node_of(s, id).dam_id, 2, max, true)
                    && t.descendants@.len() == 0 && t.generations as int == max,
                Err(e) => !has_id(s, id) && e == PedigreeError::NotFound,
            }
        }),
{
    let max_generations = match max_generations {
        Some(m) => m,
        None => DEFAULT_TREE_DEPTH,
    };
    let id = #[verifier::truncate] (pigeon_id as i32);
    match pedigree.find(id) {
        None => Err(PedigreeError::NotFound),
        Some(i) => {
            proof {
                lemma_first_index_unique(pedigree@, id, i as int);
            }
            let root = pedigree.nodes[i].at_generation(1);
            let mut ancestors: Vec<PedigreeNode> = Vec::new();
            collect_ancestors(pedigree, root.sire_id, 2, max_generations, &mut ancestors);
            collect_ancestors(pedigree, root.dam_id, 2, max_generations, &mut ancestors);
            Ok(PedigreeTree { root_pigeon: root, ancestors, descendants: Vec::new(), generations: max_generations })
        },
    }
}

/// The position of the first node of `nodes[..end]` that holds the pigeon `id`.
pub fn position_before(nodes: &Vec<PedigreeNode>, id: i32, end: usize) -> (r: Option<usize>)
    requires
        end <= nodes@.len(),
    ensures
        match r {
            Some(i) => first_index(nodes@.subrange(0, end as int), id, i as int),
            None => !has_id(nodes@.subrange(0, end as int), id),
        },
{
    let ghost sub = nodes@.subrange(0, end as int);
    let mut i: usize = 0;
    while i < end
        invariant
            0 <= i <= end <= nodes@.len(),
            sub == nodes@.subrange(0, end as int),
            forall|j: int| 0 <= j < i ==> sub[j].id != id,
        decreases end - i,
    {
        if nodes[i].id == id {
            assert(first_index(sub, id, i as int));
            return Some(i);
        }
        i = i + 1;
    }
    None
}

/// The nodes of `a` whose pigeon also occurs in `b`, in the order of `a`.
pub open spec fn common_ancestors(a: Seq<PedigreeNode>, b: Seq<PedigreeNode>) -> Seq<PedigreeNode> {
    a.filter(|n: PedigreeNode| has_id(b, n.id))
}

/// The ancestors (the pigeons themselves included) that two pigeons share:
/// each node of the first collection whose pigeon the second one holds.
pub fn find_common_ancestors(pedigree: &Pedigree, id1: i32, id2: i32) -> (r: Vec<PedigreeNode>)
    ensures
        r@ == common_ancestors(
            ancestor_walk(pedigree@, Some(id1), 1, FULL_DEPTH as int, true),
            ancestor_walk(pedigree@, Some(id2), 1, FULL_DEPTH as int, true),
        ),
{
    let ancestors1 = collect_all_ancestors(pedigree, id1);
    let ancestors2 = collect_all_ancestors(pedigree, id2);
    let ghost a = ancestors1@;
    let ghost b = ancestors2@;
    let ghost pred = |n: PedigreeNode| has_id(b, n.id);
    let mut common: Vec<PedigreeNode> = Vec::new();
    let mut i: usize = 0;
    while i < ancestors1.len()
        invariant
            0 <= i <= a.len(),
            a == ancestors1@,
            b == ancestors2@,
            pred == (|n: PedigreeNode| has_id(b, n.id)),
            common@ == a.subrange(0, i as int).filter(pred),
        decreases a.len() - i,
    {
        let found = position_before(&ancestors2, ancestors1[i].id, ancestors2.len());
        assert(b.subrange(0, b.len() as int) =~= b);
        assert(a.subrange(0, i + 1).drop_last() =~= a.subrange(0, i as int));
        proof {
            reveal(Seq::filter);
        }
        if found.is_some() {
            common.push(ancestors1[i].duplicate());
        }
        i = i + 1;
    }
    assert(a.subrange(0, a.len() as int) =~= a);
    common
}

/// How the first pigeon relates to the second: `(kind, distance, shared)`.
/// The second pigeon is the first one's sire or dam (distance 1); else the
/// two share an ancestor within ten generations, themselves included
/// ("sibling", distance 2, the shared nodes); else "unrelated" (distance 0).
pub open spec fn relationship_between(s: Seq<PedigreeNode>, id1: i32, id2: i32) -> (
    Seq<char>,
    int,
    Seq<PedigreeNode>,
) {
    let common = common_ancestors(
        ancestor_walk(s, Some(id1), 1, FULL_DEPTH as int, true),
        ancestor_walk(s, Some(id2), 1, FULL_DEPTH as int, true),
    );
    if has_id(s, id1) && node_of(s, id1).sire_id == Some(id2) {
        ("sire"@, 1, seq![])
    } else if has_id(s, id1) && node_of(s, id1).dam_id == Some(id2) {
        ("dam"@, 1, seq![])
    } else if common.len() > 0 {
        ("sibling"@, 2, common)
    } else {
        ("unrelated"@, 0, seq![])
    }
}

/// Classifies how two pigeons are related (see `relationship_between`).
pub fn calculate_relationship_between(pedigree: &Pedigree, id1: i32, id2: i32) -> (r: (
    String,
    i32,
    Vec<PedigreeNode>,
))
    ensures
        r.0@ == relationship_between(pedigree@, id1, id2).0,
        r.1 as int == relationship_between(pedigree@, id1, id2).1,
        r.2@ == relationship_between(pedigree@, id1, id2).2,
{
    if let Some(i) = pedigree.find(id1) {
        proof {
            lemma_first_index_unique(pedigree@, id1, i as int);
        }
        if pedigree.nodes[i].sire_id == Some(id2) {
            return (String::from_str("sire"), 1, Vec::new());
        }
        if pedigree.nodes[i].dam_id == Some(id2) {
            return (String::from_str("dam"), 1, Vec::new());
        }
    }
    let common = find_common_ancestors(pedigree, id1, id2);
    if common.len() > 0 {
        (String::from_str("sibling"), 2, common)
    } else {
        (String::from_str("unrelated"), 0, Vec::new())
    }
}

/// How a pigeon is named in a sentence: its name, else its ring number.
pub open spec fn label(p: PedigreeNode) -> Seq<char> {
    match p.name {
        Some(n) => n@,
        None => p.ring_number@,
    }
}

/// The sentence that describes a relationship between two named pigeons.
pub open spec fn description(kind: Seq<char>, a: Seq<char>, b: Seq<char>) -> Seq<char> {
    if kind == "sire"@ {
        a + " 是 "@ + b + " 的父亲"@
    } else if kind == "dam"@ {
        a + " 是 "@ + b + " 的母亲"@
    } else if kind == "sibling"@ {
        a + " 和 "@ + b + " 是全同胞关系"@
    } else if kind == "half-sibling"@ {
        a + " 和 "@ + b + " 是半同胞关系"@
    } else if kind == "grandparent"@ {
        a + " 是 "@ + b + " 的祖父母"@
    } else {
        a + " 和 "@ + b + " 无直接血缘关系"@
    }
}

/// The sentence for the relationship `kind` of `p1` to `p2`: for "sire" and
/// "dam", `p2` is the parent, so it is named first ("p2 is the father of
/// p1"); otherwise `p1` is named first.
pub open spec fn relationship_sentence(kind: Seq<char>, p1: PedigreeNode, p2: PedigreeNode) -> Seq<
    char,
> {
    if kind == "sire"@ || kind == "dam"@ {
        description(kind, label(p2), label(p1))
    } else {
        description(kind, label(p1), label(p2))
    }
}

/// The name of a pigeon for display.
fn display_label(p: &PedigreeNode) -> (r: &str)
    ensures
        r@ == label(*p),
{
    match &p.name {
        Some(n) => n.as_str(),
        None => p.ring_number.as_str(),
    }
}

/// Joins `a`, `middle`, `b` and `tail` into one text.
fn join_sentence(a: &str, middle: &str, b: &str, tail: &str) -> (r: String)
    ensures
        r@ == a@ + middle@ + b@ + tail@,
{
    let mut r = String::from_str(a);
    r.append(middle);
    r.append(b);
    r.append(tail);
    r
}

/// A sentence that states the relationship of `pigeon1` to `pigeon2`.
pub fn generate_relationship_description(
    relationship_type: &String,
    _distance: i32,
    pigeon1: &PedigreeNode,
    pigeon2: &PedigreeNode,
) -> (r: String)
    ensures
        r@ == description(relationship_type@, label(*pigeon1), label(*pigeon2)),
{
    let a = display_label(pigeon1);
    let b = display_label(pigeon2);
    if *relationship_type == String::from_str("sire") {
        join_sentence(a, " 是 ", b, " 的父亲")
    } else if *relationship_type == String::from_str("dam") {
        join_sentence(a, " 是 ", b, " 的母亲")
    } else if *relationship_type == String::from_str("sibling") {
        join_sentence(a, " 和 ", b, " 是全同胞关系")
    } else if *relationship_type == String::from_str("half-sibling") {
        join_sentence(a, " 和 ", b, " 是半同胞关系")
    } else if *relationship_type == String::from_str("grandparent") {
        join_sentence(a, " 是 ", b, " 的祖父母")
    } else {
        join_sentence(a, " 和 ", b, " 无直接血缘关系")
    }
}

/// The relationship of two pigeons with its description; fails when either
/// pigeon is not in the pedigree.
pub fn calculate_relationship(pedigree: &Pedigree, pigeon1_id: i64, pigeon2_id: i64) -> (r: Result<
    RelationshipResult,
    PedigreeError,
>)
    ensures
        ({
            let s = pedigree@;
            let id1 = pigeon1_id as i32;
            let id2 = pigeon2_id as i32;
            let rel = relationship_between(s, id1, id2);
            match r {
                Ok(res) => has_id(s, id1) && has_id(s, id2) && res.pigeon1_id == id1
                    && res.pigeon2_id == id2 && res.relationship_type@ == rel.0
                    && res.distance as int == rel.1 && res.common_ancestors@ == rel.2
                    && res.relationship_description@ == relationship_sentence(
                    rel.0,
                    node_of(s, id1),
                    node_of(s, id2),
                ),
                Err(e) => e == PedigreeError::NotFound && !(has_id(s, id1) && has_id(s, id2)),
            }
        }),
{
    let id1 = #[verifier::truncate] (pigeon1_id as i32);
    let id2 = #[verifier::truncate] (pigeon2_id as i32);
    let i1 = match pedigree.find(id1) {
        Some(i) => i,
        None => return Err(PedigreeError::NotFound),
    };
    let i2 = match pedigree.find(id2) {
        Some(i) => i,
        None => return Err(PedigreeError::NotFound),
    };
    proof {
        lemma_first_index_unique(pedigree@, id1, i1 as int);
        lemma_first_index_unique(pedigree@, id2, i2 as int);
    }
    let (relationship_type, distance, common_ancestors) = calculate_relationship_between(
        pedigree,
        id1,
        id2,
    );
    // "sire" and "dam" say that the second pigeon is a parent of the first,
    // so the sentence names the second pigeon first.
    let parent_first = relationship_type == String::from_str("sire") || relationship_type
        == String::from_str("dam");
    let relationship_description = if parent_first {
        generate_relationship_description(
            &relationship_type,
            distance,
            &pedigree.nodes[i2],
            &pedigree.nodes[i1],
        )
    } else {
        generate_relationship_description(
            &relationship_type,
            distance,
            &pedigree.nodes[i1],
            &pedigree.nodes[i2],
        )
    };
    Ok(
        RelationshipResult {
            pigeon1_id: id1,
            pigeon2_id: id2,
            relationship_type,
            distance,
            common_ancestors,
            relationship_description,
        },
    )
}

/// The number of parent links from the pigeon `id` up its sire line (or dam
/// line) to a pigeon without that parent, following at most `fuel` links.
/// A pigeon on the line that is missing gives `NotFound`; running out of
/// links, which only a cycle can cause when `fuel` is the pedigree's size,
/// gives `CycleDetected`.
pub open spec fn line_depth(s: Seq<PedigreeNode>, id: i32, sire_line: bool, fuel: nat) -> Result<
    int,
    PedigreeError,
>
    decreases fuel,
{
    if !has_id(s, id) {
        Err(PedigreeError::NotFound)
    } else {
        let n = node_of(s, id);
        let parent = if sire_line { n.sire_id } else { n.dam_id };
        match parent {
            None => Ok(0),
            Some(p) => {
                if fuel == 0 {
                    Err(PedigreeError::CycleDetected)
                } else {
                    match line_depth(s, p, sire_line, (fuel - 1) as nat) {
                        Ok(d) => Ok(d + 1),
                        Err(e) => Err(e),
                    }
                }
            },
        }
    }
}

/// The number of links a line walk may follow in `s`.
pub open spec fn line_fuel(s: Seq<PedigreeNode>) -> nat {
    if s.len() < i32::MAX { s.len() } else { i32::MAX as nat }
}

fn line_depth_from(pedigree: &Pedigree, id: i32, sire_line: bool, fuel: usize) -> (r: Result<
    i32,
    PedigreeError,
>)
    requires
        fuel <= i32::MAX,
    ensures
        match r {
            Ok(d) => line_depth(pedigree@, id, sire_line, fuel as nat) == Ok::<int, PedigreeError>(
                d as int,
            ) && d <= fuel,
            Err(e) => line_depth(pedigree@, id, sire_line, fuel as nat) == Err::<int, PedigreeError>(
                e,
            ),
        },
    decreases fuel,
{
    let i = match pedigree.find(id) {
        Some(i) => i,
        None => return Err(PedigreeError::NotFound),
    };
    proof {
        lemma_first_index_unique(pedigree@, id, i as int);
    }
    let parent = if sire_line {
        pedigree.nodes[i].sire_id
    } else {
        pedigree.nodes[i].dam_id
    };
    match parent {
        None => Ok(0),
        Some(p) => {
            if fuel == 0 {
                Err(PedigreeError::CycleDetected)
            } else {
                match line_depth_from(pedigree, p, sire_line, fuel - 1) {
                    Ok(d) => Ok(d + 1),
                    Err(e) => Err(e),
                }
            }
        },
    }
}

/// The depth of a pigeon's sire line (`is_sire_line`) or dam line.
pub fn calculate_line_depth(pedigree: &Pedigree, pigeon_id: i32, is_sire_line: bool) -> (r: Result<
    i32,
    PedigreeError,
>)
    ensures
        match r {
            Ok(d) => line_depth(pedigree@, pigeon_id, is_sire_line, line_fuel(pedigree@)) == Ok::<
                int,
                PedigreeError,
            >(d as int),
            Err(e) => line_depth(pedigree@, pigeon_id, is_sire_line, line_fuel(pedigree@)) == Err::<
                int,
                PedigreeError,
            >(e),
        },
{
    let len = pedigree.nodes.len();
    let fuel: usize = if len < i32::MAX as usize {
        len
    } else {
        i32::MAX as usize
    };
    line_depth_from(pedigree, pigeon_id, is_sire_line, fuel)
}

/// The number of nodes of `s` whose pigeon already occurs earlier in `s`.
pub open spec fn repeat_count(s: Seq<PedigreeNode>) -> nat
    decreases s.len(),
{
    if s.len() == 0 {
        0
    } else {
        repeat_count(s.drop_last()) + if has_id(s.drop_last(), s.last().id) {
            1nat
        } else {
            0nat
        }
    }
}

/// An exact fraction `numerator / denominator`.
#[derive(Debug, Clone, Copy, PartialEq, Eq, Structural)]
pub struct Fraction {
    pub numerator: u64,
    pub denominator: u64,
}

/// Repeated ancestors over all ancestors: the share of the collected nodes
/// whose pigeon was already collected through another branch; zero (0/1)
/// for fewer than two nodes.
pub fn calculate_inbreeding_coefficient(ancestors: &Vec<PedigreeNode>) -> (r: Fraction)
    requires
        ancestors@.len() <= u64::MAX,
    ensures
        ancestors@.len() < 2 ==> r == (Fraction { numerator: 0, denominator: 1 }),
        ancestors@.len() >= 2 ==> r.numerator as int == repeat_count(ancestors@)
            && r.denominator as int == ancestors@.len(),
{
    if ancestors.len() < 2 {
        return Fraction { numerator: 0, denominator: 1 };
    }
    let ghost s = ancestors@;
    let mut duplicates: u64 = 0;
    let mut i: usize = 0;
    while i < ancestors.len()
        invariant
            0 <= i <= s.len() <= u64::MAX,
            s == ancestors@,
            duplicates as int == repeat_count(s.subrange(0, i as int)),
            duplicates <= i,
        decreases s.len() - i,
    {
        let seen = position_before(ancestors, ancestors[i].id, i);
        assert(s.subrange(0, i + 1).drop_last() =~= s.subrange(0, i as int));
        if seen.is_some() {
            duplicates = duplicates + 1;
        }
        i = i + 1;
    }
    assert(s.subrange(0, s.len() as int) =~= s);
    Fraction { numerator: duplicates, denominator: ancestors.len() as u64 }
}

/// Ancestry figures of one pigeon.
#[derive(Debug, Clone, Copy, PartialEq, Eq, Structural)]
pub struct PedigreeStats {
    pub pigeon_id: i32,
    /// Nodes of the ten-generation collection, the pigeon itself included.
    pub total_ancestors: i32,
    /// The deeper of the sire line and the dam line.
    pub total_generations: i32,
    /// Repeated nodes over collected nodes.
    pub inbreeding_coefficient: Fraction,
    /// Distinct pigeons in the collection.
    pub unique_ancestors: i32,
    pub sire_line_depth: i32,
    pub dam_line_depth: i32,
}

/// Ancestry figures of a pigeon. Fails as `calculate_line_depth` does on
/// either line: the pigeon or a pigeon on its lines is missing, or a line
/// loops.
pub fn get_pedigree_stats(pedigree: &Pedigree, pigeon_id: i64) -> (r: Result<
    PedigreeStats,
    PedigreeError,
>)
    ensures
        ({
            let s = pedigree@;
            let id = #[verifier::truncate] (pigeon_id as i32);
            let all = ancestor_walk(s, Some(id), 1, FULL_DEPTH as int, true);
            let sire = line_depth(s, id, true, line_fuel(s));
            let dam = line_depth(s, id, false, line_fuel(s));
            match r {
                Ok(st) => sire is Ok && dam is Ok && st.pigeon_id == id
                    && st.sire_line_depth as int == sire->Ok_0
                    && st.dam_line_depth as int == dam->Ok_0
                    && st.total_generations as int == if sire->Ok_0 >= dam->Ok_0 {
                    sire->Ok_0
                } else {
                    dam->Ok_0
                } && st.total_ancestors as int == all.len()
                    && st.unique_ancestors as int == all.len() - repeat_count(all)
                    && (all.len() < 2 ==> st.inbreeding_coefficient == (Fraction {
                    numerator: 0,
                    denominator: 1,
                })) && (all.len() >= 2 ==> st.inbreeding_coefficient.numerator as int
                    == repeat_count(all) && st.inbreeding_coefficient.denominator as int
                    == all.len()),
                Err(e) => (sire is Err && e == sire->Err_0) || (sire is Ok && dam is Err && e
                    == dam->Err_0),
            }
        }),
{
    let id = #[verifier::truncate] (pigeon_id as i32);
    let ancestors = collect_all_ancestors(pedigree, id);
    let sire_line_depth = match calculate_line_depth(pedigree, id, true) {
        Ok(d) => d,
        Err(e) => return Err(e),
    };
    let dam_line_depth = match calculate_line_depth(pedigree, id, false) {
        Ok(d) => d,
        Err(e) => return Err(e),
    };
    proof {
        lemma_walk_len(pedigree@, Some(id), 1, FULL_DEPTH as int, true);
        vstd::arithmetic::power2::lemma2_to64();
    }
    let total_generations = if sire_line_depth >= dam_line_depth {
        sire_line_depth
    } else {
        dam_line_depth
    };
    let inbreeding_coefficient = calculate_inbreeding_coefficient(&ancestors);
    let duplicates = count_repeats(&ancestors);
    Ok(
        PedigreeStats {
            pigeon_id: id,
            total_ancestors: ancestors.len() as i32,
            total_generations,
            inbreeding_coefficient,
            unique_ancestors: (ancestors.len() - duplicates) as i32,
            sire_line_depth,
            dam_line_depth,
        },
    )
}

/// The number of repeated nodes in `nodes` (see `repeat_count`).
pub fn count_repeats(nodes: &Vec<PedigreeNode>) -> (r: usize)
    ensures
        r as int == repeat_count(nodes@),
        r <= nodes@.len(),
{
    let ghost s = nodes@;
    let mut duplicates: usize = 0;
    let mut i: usize = 0;
    while i < nodes.len()
        invariant
            0 <= i <= s.len(),
            s == nodes@,
            duplicates as int == repeat_count(s.subrange(0, i as int)),
            duplicates <= i,
        decreases s.len() - i,
    {
        let seen = position_before(nodes, nodes[i].id, i);
        assert(s.subrange(0, i + 1).drop_last() =~= s.subrange(0, i as int));
        if seen.is_some() {
            duplicates = duplicates + 1;
        }
        i = i + 1;
    }
    assert(s.subrange(0, s.len() as int) =~= s);
    duplicates
}

/// A walk that starts at generation `g` and stops after `max` holds fewer
/// than `2^(max - g + 1)` nodes.
pub proof fn lemma_walk_len(
    s: Seq<PedigreeNode>,
    parent: Option<i32>,
    g: int,
    max: int,
    sire_first: bool,
)
    requires
        g <= max + 1,
    ensures
        ancestor_walk(s, parent, g, max, sire_first).len() < vstd::arithmetic::power2::pow2(
            (max - g + 1) as nat,
        ),
    decreases max - g + 1,
{
    vstd::arithmetic::power2::lemma_pow2_pos((max - g + 1) as nat);
    match parent {
        None => {},
        Some(id) => {
            if g > max || !has_id(s, id) {
            } else {
                let n = node_of(s, id);
                let first = if sire_first { n.sire_id } else { n.dam_id };
                let second = if sire_first { n.dam_id } else { n.sire_id };
                lemma_walk_len(s, first, g + 1, max, sire_first);
                lemma_walk_len(s, second, g + 1, max, sire_first);
                vstd::arithmetic::power2::lemma_pow2_unfold((max - g + 1) as nat);
            }
        },
    }
}

/// Every node of a walk that starts at generation `g >= 1` carries a
/// generation from `g` to `max`.
pub proof fn lemma_walk_generations(
    s: Seq<PedigreeNode>,
    parent: Option<i32>,
    g: int,
    max: int,
    sire_first: bool,
)
    requires
        1 <= g,
        max <= i32::MAX,
    ensures
        forall|k: int|
            0 <= k < ancestor_walk(s, parent, g, max, sire_first).len() ==> g <= #[trigger] ancestor_walk(
                s,
                parent,
                g,
                max,
                sire_first,
            )[k].generation <= max,
    decreases max - g + 1,
{
    match parent {
        None => {},
        Some(id) => {
            if g > max || !has_id(s, id) {
            } else {
                let n = node_of(s, id);
                let first = if sire_first { n.sire_id } else { n.dam_id };
                let second = if sire_first { n.dam_id } else { n.sire_id };
                lemma_walk_generations(s, first, g + 1, max, sire_first);
                lemma_walk_generations(s, second, g + 1, max, sire_first);
                let w1 = ancestor_walk(s, first, g + 1, max, sire_first);
                let w2 = ancestor_walk(s, second, g + 1, max, sire_first);
                let w = seq![tagged(n, g)] + w1 + w2;
                assert(w == ancestor_walk(s, parent, g, max, sire_first));
                assert forall|k: int| 0 <= k < w.len() implies g <= #[trigger] w[k].generation <= max by {
                    if k == 0 {
                    } else if k < 1 + w1.len() {
                        assert(w[k] == w1[k - 1]);
                    } else {
                        assert(w[k] == w2[k - 1 - w1.len()]);
                    }
                }
            }
        },
    }
}

/// Why new parents cannot be recorded.
#[derive(Debug, Clone, Copy, PartialEq, Eq, Structural)]
pub enum ParentError {
    /// The pigeon itself is not in the pedigree.
    PigeonNotFound,
    /// A named parent is not in the pedigree.
    ParentNotFound,
    /// A pigeon cannot be its own parent.
    OwnParent,
    /// The named sire is not male (0).
    SireNotMale,
    /// The named dam is not female (1).
    DamNotFemale,
    /// The named parent descends from the pigeon, so the pigeon would become
    /// its own ancestor.
    CreatesCycle,
}

/// The pigeon `target` is `from` itself or is reached from it by following
/// at most `fuel` parent links.
pub open spec fn reaches(s: Seq<PedigreeNode>, from: Option<i32>, target: i32, fuel: nat) -> bool
    decreases fuel,
{
    match from {
        None => false,
        Some(x) => x == target || (fuel > 0 && has_id(s, x) && (reaches(
            s,
            node_of(s, x).sire_id,
            target,
            (fuel - 1) as nat,
        ) || reaches(s, node_of(s, x).dam_id, target, (fuel - 1) as nat))),
    }
}

/// Recording `parent` as a parent of `id` closes a loop: `id` is `parent` or
/// one of its ancestors. A shortest chain of parent links passes each pigeon
/// of the pedigree at most once, so as many links as the pedigree has nodes
/// are enough to find it.
pub open spec fn closes_loop(s: Seq<PedigreeNode>, parent: i32, id: i32) -> bool {
    reaches(s, Some(parent), id, s.len())
}

/// Where a parent link leads when looking for a target: nowhere, to the
/// target itself, or on to the pigeon at a position.
#[derive(Clone, Copy)]
enum Link {
    Never,
    Always,
    At(usize),
}

spec fn link_means(s: Seq<PedigreeNode>, target: i32, l: Link, o: Option<i32>) -> bool {
    match l {
        Link::Never => o is None || (o->Some_0 != target && !has_id(s, o->Some_0)),
        Link::Always => o == Some(target),
        Link::At(j) => o is Some && o->Some_0 != target && j < s.len() && s[j as int].id == o->Some_0,
    }
}

spec fn link_value(l: Link, r: Seq<bool>) -> bool {
    match l {
        Link::Never => false,
        Link::Always => true,
        Link::At(j) => r[j as int],
    }
}

/// `r` holds, for every node, whether the target is reached from it within
/// `k` links.
spec fn reach_table(s: Seq<PedigreeNode>, target: i32, r: Seq<bool>, k: nat) -> bool {
    r.len() == s.len() && forall|i: int| 0 <= i < s.len() ==> #[trigger] r[i] == reaches(
        s,
        Some(s[i].id),
        target,
        k,
    )
}

proof fn lemma_link_value(s: Seq<PedigreeNode>, target: i32, l: Link, o: Option<i32>, r: Seq<bool>, k: nat)
    requires
        link_means(s, target, l, o),
        reach_table(s, target, r, k),
    ensures
        link_value(l, r) == reaches(s, o, target, k),
{
    match l {
        Link::At(j) => {
            assert(r[j as int] == reaches(s, Some(s[j as int].id), target, k));
        },
        _ => {},
    }
}

fn classify(pedigree: &Pedigree, o: Option<i32>, target: i32) -> (l: Link)
    ensures
        link_means(pedigree@, target, l, o),
{
    match o {
        None => Link::Never,
        Some(x) => {
            if x == target {
                Link::Always
            } else {
                match pedigree.find(x) {
                    None => Link::Never,
                    Some(j) => Link::At(j),
                }
            }
        },
    }
}

fn read_link(l: Link, r: &Vec<bool>) -> (v: bool)
    requires
        l matches Link::At(j) ==> j < r@.len(),
    ensures
        v == link_value(l, r@),
{
    match l {
        Link::Never => false,
        Link::Always => true,
        Link::At(j) => r[j],
    }
}

/// Whether `target` is `from` or one of its ancestors (see `closes_loop`).
pub fn reaches_ancestor(pedigree: &Pedigree, from: i32, target: i32) -> (r: bool)
    ensures
        r == closes_loop(pedigree@, from, target),
{
    let ghost s = pedigree@;
    let n = pedigree.nodes.len();
    let mut present: Vec<bool> = Vec::new();
    let mut sire_links: Vec<Link> = Vec::new();
    let mut dam_links: Vec<Link> = Vec::new();
    let mut i: usize = 0;
    while i < n
        invariant
            0 <= i <= n,
            n == s.len(),
            s == pedigree@,
            present@.len() == i && sire_links@.len() == i && dam_links@.len() == i,
            forall|k: int|
                0 <= k < i ==> (#[trigger] present@[k] == has_id(s, s[k].id)) && (present@[k] ==> (
                link_means(s, target, sire_links@[k], node_of(s, s[k].id).sire_id) && link_means(
                    s,
                    target,
                    dam_links@[k],
                    node_of(s, s[k].id).dam_id,
                ))),
        decreases n - i,
    {
        match pedigree.find(pedigree.nodes[i].id) {
            None => {
                present.push(false);
                sire_links.push(Link::Never);
                dam_links.push(Link::Never);
            },
            Some(f) => {
                proof {
                    lemma_first_index_unique(s, s[i as int].id, f as int);
                }
                present.push(true);
                sire_links.push(classify(pedigree, pedigree.nodes[f].sire_id, target));
                dam_links.push(classify(pedigree, pedigree.nodes[f].dam_id, target));
            },
        }
        i = i + 1;
    }
    let mut table: Vec<bool> = Vec::new();
    let mut i: usize = 0;
    while i < n
        invariant
            0 <= i <= n,
            n == s.len(),
            s == pedigree@,
            table@.len() == i,
            forall|k: int| 0 <= k < i ==> #[trigger] table@[k] == reaches(s, Some(s[k].id), target, 0),
        decreases n - i,
    {
        table.push(pedigree.nodes[i].id == target);
        i = i + 1;
    }
    let mut step: usize = 0;
    while step < n
        invariant
            0 <= step <= n,
            n == s.len(),
            s == pedigree@,
            present@.len() == n && sire_links@.len() == n && dam_links@.len() == n,
            forall|k: int|
                0 <= k < n ==> (#[trigger] present@[k] == has_id(s, s[k].id)) && (present@[k] ==> (
                link_means(s, target, sire_links@[k], node_of(s, s[k].id).sire_id) && link_means(
                    s,
                    target,
                    dam_links@[k],
                    node_of(s, s[k].id).dam_id,
                ))),
            reach_table(s, target, table@, step as nat),
        decreases n - step,
    {
        let mut next: Vec<bool> = Vec::new();
        let mut i: usize = 0;
        while i < n
            invariant
                0 <= i <= n,
                n == s.len(),
                s == pedigree@,
                0 <= step < n,
                present@.len() == n && sire_links@.len() == n && dam_links@.len() == n,
                forall|k: int|
                    0 <= k < n ==> (#[trigger] present@[k] == has_id(s, s[k].id)) && (present@[k] ==> (
                    link_means(s, target, sire_links@[k], node_of(s, s[k].id).sire_id)
                        && link_means(s, target, dam_links@[k], node_of(s, s[k].id).dam_id))),
                reach_table(s, target, table@, step as nat),
                next@.len() == i,
                forall|k: int|
                    0 <= k < i ==> #[trigger] next@[k] == reaches(s, Some(s[k].id), target, (step
                        + 1) as nat),
            decreases n - i,
        {
            let x = pedigree.nodes[i].id;
            let v = if x == target {
                true
            } else if present[i] {
                let ghost n_i = node_of(s, x);
                proof {
                    assert(present@[i as int]);
                    lemma_link_value(s, target, sire_links@[i as int], n_i.sire_id, table@, step as nat);
                    lemma_link_value(s, target, dam_links@[i as int], n_i.dam_id, table@, step as nat);
                }
                read_link(sire_links[i], &table) || read_link(dam_links[i], &table)
            } else {
                assert(!has_id(s, x));
                false
            };
            next.push(v);
            i = i + 1;
        }
        table = next;
        step = step + 1;
    }
    let l = classify(pedigree, Some(from), target);
    proof {
        lemma_link_value(s, target, l, Some(from), table@, n as nat);
    }
    read_link(l, &table)
}

/// The verdict on recording the parents of `update`: the pigeon must be
/// there; a named sire must be there, differ from the pigeon, be male and not
/// descend from the pigeon; a named dam likewise, female. Checked in that
/// order.
pub open spec fn parent_verdict(s: Seq<PedigreeNode>, update: ParentRelationshipUpdate) -> Result<
    (),
    ParentError,
> {
    let id = update.pigeon_id;
    if !has_id(s, id) {
        Err(ParentError::PigeonNotFound)
    } else if update.sire_id is Some && !has_id(s, update.sire_id->Some_0) {
        Err(ParentError::ParentNotFound)
    } else if update.sire_id == Some(id) {
        Err(ParentError::OwnParent)
    } else if update.sire_id is Some && node_of(s, update.sire_id->Some_0).sex != 0 {
        Err(ParentError::SireNotMale)
    } else if update.sire_id is Some && closes_loop(s, update.sire_id->Some_0, id) {
        Err(ParentError::CreatesCycle)
    } else if update.dam_id is Some && !has_id(s, update.dam_id->Some_0) {
        Err(ParentError::ParentNotFound)
    } else if update.dam_id == Some(id) {
        Err(ParentError::OwnParent)
    } else if update.dam_id is Some && node_of(s, update.dam_id->Some_0).sex != 1 {
        Err(ParentError::DamNotFemale)
    } else if update.dam_id is Some && closes_loop(s, update.dam_id->Some_0, id) {
        Err(ParentError::CreatesCycle)
    } else {
        Ok(())
    }
}

/// Checks new parents before they are written (see `parent_verdict`).
pub fn check_parent_update(pedigree: &Pedigree, update: &ParentRelationshipUpdate) -> (r: Result<
    (),
    ParentError,
>)
    ensures
        r == parent_verdict(pedigree@, *update),
{
    let id = update.pigeon_id;
    if pedigree.find(id).is_none() {
        return Err(ParentError::PigeonNotFound);
    }
    if let Some(sire) = update.sire_id {
        match pedigree.find(sire) {
            None => return Err(ParentError::ParentNotFound),
            Some(i) => {
                proof {
                    lemma_first_index_unique(pedigree@, sire, i as int);
                }
                if sire == id {
                    return Err(ParentError::OwnParent);
                }
                if pedigree.nodes[i].sex != 0 {
                    return Err(ParentError::SireNotMale);
                }
                if reaches_ancestor(pedigree, sire, id) {
                    return Err(ParentError::CreatesCycle);
                }
            },
        }
    }
    if let Some(dam) = update.dam_id {
        match pedigree.find(dam) {
            None => return Err(ParentError::ParentNotFound),
            Some(i) => {
                proof {
                    lemma_first_index_unique(pedigree@, dam, i as int);
                }
                if dam == id {
                    return Err(ParentError::OwnParent);
                }
                if pedigree.nodes[i].sex != 1 {
                    return Err(ParentError::DamNotFemale);
                }
                if reaches_ancestor(pedigree, dam, id) {
                    return Err(ParentError::CreatesCycle);
                }
            },
        }
    }
    Ok(())
}

/// Records the parents of a pigeon once `check_parent_update` accepts them;
/// an absent parent in `update` keeps the current one. Answers whether the
/// pigeon was there (`Ok(false)`: it was not). On a refusal or a missing
/// pigeon nothing changes.
pub fn update_parent_relationship(pedigree: &mut Pedigree, update: &ParentRelationshipUpdate) -> (r:
    Result<bool, ParentError>)
    ensures
        ({
            let s = old(pedigree)@;
            let id = update.pigeon_id;
            if !has_id(s, id) {
                r == Ok::<bool, ParentError>(false) && final(pedigree)@ == s
            } else if parent_verdict(s, *update) is Err {
                r == Err::<bool, ParentError>(parent_verdict(s, *update)->Err_0) && final(pedigree)@
                    == s
            } else {
                let i = choose|i: int| first_index(s, id, i);
                let n = s[i];
                r == Ok::<bool, ParentError>(true) && final(pedigree)@ == s.update(
                    i,
                    PedigreeNode {
                        sire_id: if update.sire_id is Some {
                            update.sire_id
                        } else {
                            n.sire_id
                        },
                        dam_id: if update.dam_id is Some {
                            update.dam_id
                        } else {
                            n.dam_id
                        },
                        ..n
                    },
                )
            }
        }),
{
    let i = match pedigree.find(update.pigeon_id) {
        None => return Ok(false),
        Some(i) => i,
    };
    if let Err(e) = check_parent_update(pedigree, update) {
        return Err(e);
    }
    proof {
        lemma_first_index_unique(pedigree@, update.pigeon_id, i as int);
        let k = choose|k: int| first_index(pedigree@, update.pigeon_id, k);
        assert(k == i as int);
    }
    let mut n = pedigree.nodes[i].duplicate();
    if update.sire_id.is_some() {
        n.sire_id = update.sire_id;
    }
    if update.dam_id.is_some() {
        n.dam_id = update.dam_id;
    }
    pedigree.nodes.set(i, n);
    Ok(true)
}

} // verus!
