//! Pedigree analysis over a loaded pedigree: complete trees, relationship
//! coefficients, inbreeding, strain purity and line strength.
use vstd::prelude::*;
use vstd::string::StringExecFns;
use vstd::arithmetic::power2::{pow2, lemma_pow2_unfold, lemma_pow2_strictly_increases, lemma2_to64};
use crate::pigeon::{PedigreeNode, PedigreeTree, tagged};
use crate::pedigree::{
    Pedigree,
    PedigreeError,
    ancestor_walk,
    first_index,
    has_id,
    node_of,
    lemma_first_index_unique,
    position_before,
};

verus! {

/// The pigeon `id` has `n` as a parent.
pub open spec fn is_child_of(n: PedigreeNode, id: i32) -> bool {
    n.sire_id == Some(id) || n.dam_id == Some(id)
}

/// The nodes of `s` that have the pigeon `id` as a parent, in arena order,
/// tagged with generation `g`.
pub open spec fn children_of(s: Seq<PedigreeNode>, id: i32, g: int) -> Seq<PedigreeNode> {
    s.filter(|n: PedigreeNode| is_child_of(n, id)).map_values(|n: PedigreeNode| tagged(n, g))
}

/// The children of every pigeon of `frontier`, frontier order first, each
/// tagged with generation `g`.
pub open spec fn level_children(s: Seq<PedigreeNode>, frontier: Seq<i32>, g: int) -> Seq<
    PedigreeNode,
>
    decreases frontier.len(),
{
    if frontier.len() == 0 {
        seq![]
    } else {
        level_children(s, frontier.drop_last(), g) + children_of(s, frontier.last(), g)
    }
}

/// The ids of some nodes.
pub open spec fn ids_of(nodes: Seq<PedigreeNode>) -> Seq<i32> {
    nodes.map_values(|n: PedigreeNode| n.id)
}

/// Descendants level by level: the children of `frontier` at generation `g`,
/// then theirs at `g + 1`, up to generation `max`.
pub open spec fn descendant_levels(s: Seq<PedigreeNode>, frontier: Seq<i32>, g: int, max: int) -> Seq<
    PedigreeNode,
>
    decreases max - g + 1,
{
    if g > max || frontier.len() == 0 {
        seq![]
    } else {
        let next = level_children(s, frontier, g);
        next + descendant_levels(s, ids_of(next), g + 1, max)
    }
}

/// The line of a pigeon through its sires (`sire_line`) or dams: the pigeon
/// at generation `g`, its parent at `g + 1`, and so on up to `max`, ending at
/// a missing parent.
pub open spec fn line_walk(s: Seq<PedigreeNode>, id: Option<i32>, g: int, max: int, sire_line: bool) -> Seq<
    PedigreeNode,
>
    decreases max - g + 1,
{
    match id {
        None => seq![],
        Some(i) => {
            if g > max || !has_id(s, i) {
                seq![]
            } else {
                let n = node_of(s, i);
                let parent = if sire_line { n.sire_id } else { n.dam_id };
                seq![tagged(n, g)] + line_walk(s, parent, g + 1, max, sire_line)
            }
        },
    }
}

/// Pedigree analysis over one loaded pedigree.
pub struct PedigreeService {
    pub pedigree: Pedigree,
}

impl PedigreeService {
    pub fn new(pedigree: Pedigree) -> (r: PedigreeService)
        ensures
            r.pedigree@ == pedigree@,
    {
        PedigreeService { pedigree }
    }

    /// The pigeon (generation 1) and its ancestors up to `max_generations`,
    /// dam branch first.
    pub fn get_all_ancestors(&self, pigeon_id: i32, max_generations: i32) -> (r: Vec<PedigreeNode>)
        ensures
            r@ == ancestor_walk(self.pedigree@, Some(pigeon_id), 1, max_generations as int, false),
    {
        let mut ancestors: Vec<PedigreeNode> = Vec::new();
        self.pedigree.walk_into(Some(pigeon_id), 1, max_generations, false, &mut ancestors);
        assert(ancestors@ =~= ancestor_walk(
            self.pedigree@,
            Some(pigeon_id),
            1,
            max_generations as int,
            false,
        ));
        ancestors
    }

    /// Appends to `out` the children of the pigeon `id`, tagged `generation`.
    fn push_children(&self, id: i32, generation: i32, out: &mut Vec<PedigreeNode>)
        ensures
            final(out)@ == old(out)@ + children_of(self.pedigree@, id, generation as int),
    {
        let ghost s = self.pedigree@;
        let ghost start = out@;
        let ghost pred = |n: PedigreeNode| is_child_of(n, id);
        let ghost tag = |n: PedigreeNode| tagged(n, generation as int);
        let mut k: usize = 0;
        while k < self.pedigree.nodes.len()
            invariant
                0 <= k <= s.len(),
                s == self.pedigree@,
                pred == (|n: PedigreeNode| is_child_of(n, id)),
                tag == (|n: PedigreeNode| tagged(n, generation as int)),
                out@ == start + s.subrange(0, k as int).filter(pred).map_values(tag),
            decreases s.len() - k,
        {
            let n = &self.pedigree.nodes[k];
            proof {
                reveal(Seq::filter);
            }
            assert(s.subrange(0, k + 1).drop_last() =~= s.subrange(0, k as int));
            let ghost before = s.subrange(0, k as int).filter(pred);
            if n.sire_id == Some(id) || n.dam_id == Some(id) {
                out.push(n.at_generation(generation));
                assert(before.push(*n).map_values(tag) =~= before.map_values(tag).push(
                    tagged(*n, generation as int),
                ));
            }
            k = k + 1;
        }
        assert(s.subrange(0, s.len() as int) =~= s);
    }

    /// The descendants of a pigeon level by level: its children at
    /// generation 2, theirs at 3, up to `max_generations`.
    pub fn get_all_descendants(&self, pigeon_id: i32, max_generations: i32) -> (r: Vec<PedigreeNode>)
        ensures
            r@ == descendant_levels(self.pedigree@, seq![pigeon_id], 2, max_generations as int),
    {
        let ghost s = self.pedigree@;
        let ghost total = descendant_levels(s, seq![pigeon_id], 2, max_generations as int);
        let mut descendants: Vec<PedigreeNode> = Vec::new();
        let mut frontier: Vec<i32> = Vec::new();
        frontier.push(pigeon_id);
        let mut generation: i32 = 2;
        assert(frontier@ =~= seq![pigeon_id]);
        assert(descendants@ + descendant_levels(s, frontier@, generation as int, max_generations as int)
            =~= total);
        while generation <= max_generations && frontier.len() > 0
            invariant
                s == self.pedigree@,
                total == descendant_levels(s, seq![pigeon_id], 2, max_generations as int),
                2 <= generation,
                descendants@ + descendant_levels(s, frontier@, generation as int, max_generations as int)
                    == total,
            decreases max_generations - generation + 1,
        {
            let mut next: Vec<PedigreeNode> = Vec::new();
            let mut j: usize = 0;
            while j < frontier.len()
                invariant
                    0 <= j <= frontier@.len(),
                    s == self.pedigree@,
                    next@ == level_children(s, frontier@.subrange(0, j as int), generation as int),
                decreases frontier@.len() - j,
            {
                assert(frontier@.subrange(0, j + 1).drop_last() =~= frontier@.subrange(0, j as int));
                self.push_children(frontier[j], generation, &mut next);
                j = j + 1;
            }
            assert(frontier@.subrange(0, frontier@.len() as int) =~= frontier@);
            let mut ids: Vec<i32> = Vec::new();
            let mut k: usize = 0;
            while k < next.len()
                invariant
                    0 <= k <= next@.len(),
                    ids@ == ids_of(next@.subrange(0, k as int)),
                decreases next@.len() - k,
            {
                ids.push(next[k].id);
                assert(ids_of(next@.subrange(0, k + 1)) =~= ids_of(next@.subrange(0, k as int)).push(
                    next@[k as int].id,
                ));
                k = k + 1;
            }
            assert(next@.subrange(0, next@.len() as int) =~= next@);
            let ghost old_desc = descendants@;
            let ghost next_v = next@;
            assert(next_v == level_children(s, frontier@, generation as int));
            assert(ids@ == ids_of(next_v));
            assert(descendant_levels(s, frontier@, generation as int, max_generations as int)
                == next_v + descendant_levels(s, ids@, generation + 1, max_generations as int));
            descendants.append(&mut next);
            assert(descendants@ + descendant_levels(
                s,
                ids@,
                generation + 1,
                max_generations as int,
            ) =~= old_desc + descendant_levels(
                s,
                frontier@,
                generation as int,
                max_generations as int,
            ));
            frontier = ids;
            if generation == max_generations {
                assert(descendant_levels(s, frontier@, generation + 1, max_generations as int)
                    =~= Seq::<PedigreeNode>::empty());
                assert(descendants@ =~= total);
                return descendants;
            }
            generation = generation + 1;
        }
        assert(descendants@ =~= total);
        descendants
    }

    /// The pigeon (generation 1), its ancestors and its descendants up to
    /// `max_generations`. Fails when the pigeon is not there.
    pub fn get_complete_pedigree(&self, pigeon_id: i32, max_generations: i32) -> (r: Result<
        PedigreeTree,
        PedigreeError,
    >)
        ensures
            ({
                let s = self.pedigree@;
                match r {
                    Ok(t) => has_id(s, pigeon_id) && t.root_pigeon == tagged(node_of(s, pigeon_id), 1)
                        && t.ancestors@ == ancestor_walk(
                        s,
                        Some(pigeon_id),
                        1,
                        max_generations as int,
                        false,
                    ) && t.descendants@ == descendant_levels(
                        s,
                        seq![pigeon_id],
                        2,
                        max_generations as int,
                    ) && t.generations == max_generations,
                    Err(e) => !has_id(s, pigeon_id) && e == PedigreeError::NotFound,
                }
            }),
    {
        let i = match self.pedigree.find(pigeon_id) {
            Some(i) => i,
            None => return Err(PedigreeError::NotFound),
        };
        proof {
            lemma_first_index_unique(self.pedigree@, pigeon_id, i as int);
        }
        let root = self.pedigree.nodes[i].at_generation(1);
        let ancestors = self.get_all_ancestors(pigeon_id, max_generations);
        let descendants = self.get_all_descendants(pigeon_id, max_generations);
        Ok(PedigreeTree { root_pigeon: root, ancestors, descendants, generations: max_generations })
    }

    /// The pigeon and its sires (`sire_line`) or dams, from generation 1 up
    /// to `max_generations`.
    pub fn get_line(&self, pigeon_id: i32, max_generations: i32, sire_line: bool) -> (r: Vec<
        PedigreeNode,
    >)
        ensures
            r@ == line_walk(self.pedigree@, Some(pigeon_id), 1, max_generations as int, sire_line),
    {
        let ghost s = self.pedigree@;
        let ghost total = line_walk(s, Some(pigeon_id), 1, max_generations as int, sire_line);
        let mut line: Vec<PedigreeNode> = Vec::new();
        let mut current: Option<i32> = Some(pigeon_id);
        let mut generation: i32 = 1;
        assert(line@ + line_walk(s, current, generation as int, max_generations as int, sire_line)
            =~= total);
        while generation <= max_generations
            invariant
                s == self.pedigree@,
                total == line_walk(s, Some(pigeon_id), 1, max_generations as int, sire_line),
                1 <= generation,
                line@ + line_walk(s, current, generation as int, max_generations as int, sire_line)
                    == total,
            decreases max_generations - generation + 1,
        {
            let id = match current {
                Some(id) => id,
                None => {
                    assert(line_walk(s, current, generation as int, max_generations as int, sire_line)
                        =~= Seq::<PedigreeNode>::empty());
                    assert(line@ =~= total);
                    return line;
                },
            };
            let i = match self.pedigree.find(id) {
                Some(i) => i,
                None => {
                    assert(line_walk(s, current, generation as int, max_generations as int, sire_line)
                        =~= Seq::<PedigreeNode>::empty());
                    assert(line@ =~= total);
                    return line;
                },
            };
            proof {
                lemma_first_index_unique(s, id, i as int);
            }
            let n = &self.pedigree.nodes[i];
            let ghost before = line@;
            current = if sire_line {
                n.sire_id
            } else {
                n.dam_id
            };
            line.push(n.at_generation(generation));
            assert(line@ + line_walk(s, current, generation + 1, max_generations as int, sire_line)
                =~= before + line_walk(s, Some(id), generation as int, max_generations as int, sire_line));
            if generation == max_generations {
                assert(line_walk(s, current, generation + 1, max_generations as int, sire_line)
                    =~= Seq::<PedigreeNode>::empty());
                assert(line@ =~= total);
                return line;
            }
            generation = generation + 1;
        }
        assert(line@ =~= total);
        line
    }

    /// The pigeon and its sires up to `max_generations`.
    pub fn get_sire_line(&self, pigeon_id: i32, max_generations: i32) -> (r: Vec<PedigreeNode>)
        ensures
            r@ == line_walk(self.pedigree@, Some(pigeon_id), 1, max_generations as int, true),
    {
        self.get_line(pigeon_id, max_generations, true)
    }

    /// The pigeon and its dams up to `max_generations`.
    pub fn get_dam_line(&self, pigeon_id: i32, max_generations: i32) -> (r: Vec<PedigreeNode>)
        ensures
            r@ == line_walk(self.pedigree@, Some(pigeon_id), 1, max_generations as int, false),
    {
        self.get_line(pigeon_id, max_generations, false)
    }
}

/// How strongly two pigeons are inbred when paired.
#[derive(Debug, Clone, Copy, PartialEq, Eq, Structural)]
pub enum InbreedingRisk {
    Minimal,
    Low,
    Medium,
    High,
}

/// Which parent line of a pigeon is the stronger.
#[derive(Debug, Clone, Copy, PartialEq, Eq, Structural)]
pub enum LineType {
    Sire,
    Dam,
    Balanced,
}


/// The weight `2^-e` of a pair of paths with `e >= 0` links in all, in units
/// of `2^-64`; beyond 64 links the weight is below the unit and counts zero.
pub open spec fn path_term(e: int) -> nat {
    if 0 <= e <= 64 {
        pow2((64 - e) as nat)
    } else {
        0
    }
}

/// The contribution of the shared ancestor `c`: `2^-(len1 + len2)`, where
/// `len1` and `len2` are the links from each pigeon to the first node of `c`
/// in its ancestry (its generation less one).
pub open spec fn ancestor_term(c: PedigreeNode, p1: Seq<PedigreeNode>, p2: Seq<PedigreeNode>) -> nat {
    if has_id(p1, c.id) && has_id(p2, c.id) {
        path_term((node_of(p1, c.id).generation - 1) + (node_of(p2, c.id).generation - 1))
    } else {
        0
    }
}

/// The sum of the contributions of all shared ancestors.
pub open spec fn coefficient_units(
    common: Seq<PedigreeNode>,
    p1: Seq<PedigreeNode>,
    p2: Seq<PedigreeNode>,
) -> nat
    decreases common.len(),
{
    if common.len() == 0 {
        0
    } else {
        coefficient_units(common.drop_last(), p1, p2) + ancestor_term(common.last(), p1, p2)
    }
}

/// `x`, or the largest `u128` when `x` is larger.
pub open spec fn saturate(x: nat) -> nat {
    if x > u128::MAX {
        u128::MAX as nat
    } else {
        x
    }
}

/// `2^-e` in units of `2^-64` (see `path_term`).
fn path_weight(e: i64) -> (r: u128)
    ensures
        r as nat == path_term(e as int),
{
    if e < 0 || e > 64 {
        return 0;
    }
    let mut t: u128 = 1;
    let mut k: i64 = 0;
    proof {
        lemma2_to64();
    }
    while k < 64 - e
        invariant
            0 <= e <= 64,
            0 <= k <= 64 - e,
            t as nat == pow2(k as nat),
            pow2(64) == 0x10000000000000000,
        decreases 64 - e - k,
    {
        proof {
            lemma_pow2_unfold((k + 1) as nat);
            if k + 1 < 64 {
                lemma_pow2_strictly_increases((k + 1) as nat, 64);
            }
        }
        t = t * 2;
        k = k + 1;
    }
    t
}

/// `a + b`, or the largest `u128` when the sum is larger.
fn add_saturating(a: u128, b: u128) -> (r: u128)
    ensures
        r as nat == saturate(a as nat + b as nat),
{
    if a > u128::MAX - b {
        u128::MAX
    } else {
        a + b
    }
}

/// The first position of the pigeon `id` in all of `nodes`.
fn position_in(nodes: &Vec<PedigreeNode>, id: i32) -> (r: Option<usize>)
    ensures
        match r {
            Some(i) => first_index(nodes@, id, i as int) && has_id(nodes@, id) && node_of(nodes@, id)
                == nodes@[i as int],
            None => !has_id(nodes@, id),
        },
{
    let r = position_before(nodes, id, nodes.len());
    assert(nodes@.subrange(0, nodes@.len() as int) =~= nodes@);
    if let Some(i) = r {
        proof {
            lemma_first_index_unique(nodes@, id, i as int);
        }
    }
    r
}

/// The ancestors that two collections share, each once, as first met in
/// `p1`.
pub open spec fn shared_once(p1: Seq<PedigreeNode>, p2: Seq<PedigreeNode>) -> Seq<PedigreeNode>
    decreases p1.len(),
{
    if p1.len() == 0 {
        seq![]
    } else {
        let r = shared_once(p1.drop_last(), p2);
        let n = p1.last();
        if has_id(p2, n.id) && !has_id(r, n.id) {
            r.push(n)
        } else {
            r
        }
    }
}

/// Text advice for a relationship coefficient given in units of `2^-64`.
pub open spec fn advice(coefficient: u128) -> Seq<char> {
    if coefficient >= 0x4000000000000000 {
        "不建议配对，近交系数过高"@
    } else if coefficient >= 0x2000000000000000 {
        "需要谨慎考虑，建议选择更远的亲缘关系"@
    } else if coefficient >= 0x1000000000000000 {
        "可接受，但需注意后代健康"@
    } else {
        "推荐的配对，近交风险很低"@
    }
}

/// The risk band of a coefficient in units of `2^-64`: from 1/4 high, from
/// 1/8 medium, from 1/16 low, else minimal.
pub open spec fn risk_of(coefficient: u128) -> InbreedingRisk {
    if coefficient >= 0x4000000000000000 {
        InbreedingRisk::High
    } else if coefficient >= 0x2000000000000000 {
        InbreedingRisk::Medium
    } else if coefficient >= 0x1000000000000000 {
        InbreedingRisk::Low
    } else {
        InbreedingRisk::Minimal
    }
}

/// The kind of relationship that a number of shared ancestors suggests.
pub open spec fn kind_of_sharing(n: nat) -> Seq<char> {
    if n == 0 {
        "unrelated"@
    } else if n == 1 {
        "half-sibling"@
    } else {
        "full-sibling"@
    }
}

/// Kinship of two pigeons in units of `2^-64` (`2^64` is 1), followed
/// through at most `fuel` steps: the chance that a gene drawn from each is
/// the same by descent. A pigeon with itself: half of one plus the kinship of
/// its parents. Two pigeons: the younger one (by year of birth; the first on
/// a tie) is replaced by each of its parents in turn, and the two kinships
/// are averaged. Unknown pigeons and exhausted steps count zero.
pub open spec fn kinship_units(s: Seq<PedigreeNode>, a: Option<i32>, b: Option<i32>, fuel: nat) -> nat
    decreases fuel,
{
    if fuel == 0 {
        0
    } else {
        match (a, b) {
            (Some(x), Some(y)) => {
                if !has_id(s, x) || !has_id(s, y) {
                    0
                } else {
                    let nx = node_of(s, x);
                    let ny = node_of(s, y);
                    let f = (fuel - 1) as nat;
                    if x == y {
                        (0x10000000000000000 + kinship_units(s, nx.sire_id, nx.dam_id, f)) / 2
                    } else if nx.year >= ny.year {
                        (kinship_units(s, nx.sire_id, b, f) + kinship_units(s, nx.dam_id, b, f)) / 2
                    } else {
                        (kinship_units(s, a, ny.sire_id, f) + kinship_units(s, a, ny.dam_id, f)) / 2
                    }
                }
            },
            _ => 0,
        }
    }
}

/// Steps of a kinship computation behind an inbreeding coefficient.
pub const KINSHIP_STEPS: usize = 16;

/// The inbreeding coefficient of a pigeon in units of `2^-64`: the kinship of
/// its sire and dam; zero when the pigeon is not there.
pub open spec fn inbreeding_units(s: Seq<PedigreeNode>, id: i32) -> nat {
    if has_id(s, id) {
        kinship_units(s, node_of(s, id).sire_id, node_of(s, id).dam_id, KINSHIP_STEPS as nat)
    } else {
        0
    }
}

/// Kinship never exceeds one.
pub proof fn lemma_kinship_at_most_one(s: Seq<PedigreeNode>, a: Option<i32>, b: Option<i32>, fuel: nat)
    ensures
        kinship_units(s, a, b, fuel) <= 0x10000000000000000,
    decreases fuel,
{
    if fuel > 0 {
        if let (Some(x), Some(y)) = (a, b) {
            if has_id(s, x) && has_id(s, y) {
                let nx = node_of(s, x);
                let ny = node_of(s, y);
                let f = (fuel - 1) as nat;
                lemma_kinship_at_most_one(s, nx.sire_id, nx.dam_id, f);
                lemma_kinship_at_most_one(s, nx.sire_id, b, f);
                lemma_kinship_at_most_one(s, nx.dam_id, b, f);
                lemma_kinship_at_most_one(s, a, ny.sire_id, f);
                lemma_kinship_at_most_one(s, a, ny.dam_id, f);
            }
        }
    }
}

/// `s` occurs in `text` as a run of characters.
pub open spec fn occurs_in(s: Seq<char>, text: Seq<char>) -> bool {
    exists|i: int| 0 <= i && i + s.len() <= text.len() && #[trigger] text.subrange(i, i + s.len()) == s
}

/// Relies on `str::contains` with a `&str` pattern: whether `pattern`
/// occurs in `text`.
#[verifier::external_body]
fn text_contains(text: &str, pattern: &str) -> (r: bool)
    ensures
        r == occurs_in(pattern@, text@),
{
    text.contains(pattern)
}

/// The name marks a champion or a famous bird.
pub open spec fn is_renowned(n: PedigreeNode) -> bool {
    match n.name {
        Some(x) => occurs_in("冠军"@, x@) || occurs_in("名鸽"@, x@),
        None => false,
    }
}

/// The name marks a champion, a famous bird, a prince or a princess.
pub open spec fn is_notable(n: PedigreeNode) -> bool {
    match n.name {
        Some(x) => occurs_in("冠军"@, x@) || occurs_in("名鸽"@, x@) || occurs_in("王子"@, x@)
            || occurs_in("公主"@, x@),
        None => false,
    }
}

/// Strength of a parent line, out of 100: ten points per pigeon on it (up
/// to ten pigeons) and twenty per renowned one.
pub open spec fn line_strength(line: Seq<PedigreeNode>) -> nat {
    let depth = if line.len() < 10 { line.len() } else { 10 };
    let score = depth * 10 + line.filter(|n: PedigreeNode| is_renowned(n)).len() * 20;
    if score < 100 { score } else { 100 }
}

/// The stronger line of two strengths.
pub open spec fn dominant(sire: nat, dam: nat) -> LineType {
    if sire > dam {
        LineType::Sire
    } else if dam > sire {
        LineType::Dam
    } else {
        LineType::Balanced
    }
}

fn has_renowned_name(n: &PedigreeNode) -> (r: bool)
    ensures
        r == is_renowned(*n),
{
    match &n.name {
        Some(x) => text_contains(x.as_str(), "冠军") || text_contains(x.as_str(), "名鸽"),
        None => false,
    }
}

fn has_notable_name(n: &PedigreeNode) -> (r: bool)
    ensures
        r == is_notable(*n),
{
    match &n.name {
        Some(x) => text_contains(x.as_str(), "冠军") || text_contains(x.as_str(), "名鸽")
            || text_contains(x.as_str(), "王子") || text_contains(x.as_str(), "公主"),
        None => false,
    }
}

/// A pair analysis: how two pigeons are related through shared ancestors.
#[derive(Debug, Clone)]
pub struct AdvancedRelationshipAnalysis {
    pub pigeon1_id: i32,
    pub pigeon2_id: i32,
    pub relationship_type: String,
    /// In units of `2^-64`.
    pub relationship_coefficient: u128,
    pub common_ancestors: Vec<PedigreeNode>,
    pub inbreeding_risk: InbreedingRisk,
    pub breeding_recommendation: String,
}

/// Line strengths of a pigeon.
#[derive(Debug, Clone)]
pub struct LineStrengthAnalysis {
    pub pigeon_id: i32,
    pub sire_line_depth: i32,
    pub dam_line_depth: i32,
    /// Out of 100.
    pub sire_line_strength: u32,
    /// Out of 100.
    pub dam_line_strength: u32,
    pub dominant_line: LineType,
    pub notable_ancestors: Vec<PedigreeNode>,
}

/// A line that starts at generation `g` and stops after `max` holds at most
/// `max - g + 1` nodes.
pub proof fn lemma_line_len(s: Seq<PedigreeNode>, id: Option<i32>, g: int, max: int, sire_line: bool)
    requires
        g <= max + 1,
    ensures
        line_walk(s, id, g, max, sire_line).len() <= max - g + 1,
    decreases max - g + 1,
{
    match id {
        None => {},
        Some(i) => {
            if g > max || !has_id(s, i) {
            } else {
                let n = node_of(s, i);
                let parent = if sire_line { n.sire_id } else { n.dam_id };
                lemma_line_len(s, parent, g + 1, max, sire_line);
            }
        },
    }
}

/// Appends to `out` the nodes of `line` whose names mark them as notable.
fn push_notable(line: &Vec<PedigreeNode>, out: &mut Vec<PedigreeNode>)
    ensures
        final(out)@ == old(out)@ + line@.filter(|n: PedigreeNode| is_notable(n)),
{
    let ghost s = line@;
    let ghost start = out@;
    let ghost pred = |n: PedigreeNode| is_notable(n);
    let mut i: usize = 0;
    while i < line.len()
        invariant
            0 <= i <= s.len(),
            s == line@,
            pred == (|n: PedigreeNode| is_notable(n)),
            out@ == start + s.subrange(0, i as int).filter(pred),
        decreases s.len() - i,
    {
        proof {
            reveal(Seq::filter);
        }
        assert(s.subrange(0, i + 1).drop_last() =~= s.subrange(0, i as int));
        if has_notable_name(&line[i]) {
            out.push(line[i].duplicate());
        }
        i = i + 1;
    }
    assert(s.subrange(0, s.len() as int) =~= s);
}

impl PedigreeService {
    /// The ancestors in both collections, each once, as first met in
    /// `pedigree1`.
    pub fn find_common_ancestors(&self, pedigree1: &Vec<PedigreeNode>, pedigree2: &Vec<PedigreeNode>) -> (r:
        Vec<PedigreeNode>)
        ensures
            r@ == shared_once(pedigree1@, pedigree2@),
    {
        let ghost p1 = pedigree1@;
        let mut common: Vec<PedigreeNode> = Vec::new();
        let mut i: usize = 0;
        while i < pedigree1.len()
            invariant
                0 <= i <= p1.len(),
                p1 == pedigree1@,
                common@ == shared_once(p1.subrange(0, i as int), pedigree2@),
            decreases p1.len() - i,
        {
            let id = pedigree1[i].id;
            assert(p1.subrange(0, i + 1).drop_last() =~= p1.subrange(0, i as int));
            let in_other = position_in(pedigree2, id);
            let seen = position_in(&common, id);
            if in_other.is_some() && seen.is_none() {
                common.push(pedigree1[i].duplicate());
            }
            i = i + 1;
        }
        assert(p1.subrange(0, p1.len() as int) =~= p1);
        common
    }

    /// The relationship coefficient of two pigeons, in units of `2^-64`: the
    /// sum over the shared ancestors of `2^-(len1 + len2)` (see
    /// `ancestor_term`), capped at the largest `u128`. The collections are
    /// tagged by a walk, so every generation is at least 1 (the pigeon
    /// itself) and every path length at least 0.
    pub fn calculate_relationship_coefficient(
        &self,
        common_ancestors: &Vec<PedigreeNode>,
        pedigree1: &Vec<PedigreeNode>,
        pedigree2: &Vec<PedigreeNode>,
    ) -> (r: u128)
        requires
            forall|k: int| 0 <= k < pedigree1@.len() ==> #[trigger] pedigree1@[k].generation >= 1,
            forall|k: int| 0 <= k < pedigree2@.len() ==> #[trigger] pedigree2@[k].generation >= 1,
        ensures
            r as nat == saturate(coefficient_units(common_ancestors@, pedigree1@, pedigree2@)),
    {
        let ghost c = common_ancestors@;
        let mut total: u128 = 0;
        let mut i: usize = 0;
        while i < common_ancestors.len()
            invariant
                0 <= i <= c.len(),
                c == common_ancestors@,
                total as nat == saturate(coefficient_units(c.subrange(0, i as int), pedigree1@, pedigree2@)),
            decreases c.len() - i,
        {
            let id = common_ancestors[i].id;
            assert(c.subrange(0, i + 1).drop_last() =~= c.subrange(0, i as int));
            let a = position_in(pedigree1, id);
            let b = position_in(pedigree2, id);
            if let (Some(j), Some(k)) = (a, b) {
                let len1 = pedigree1[j].generation as i64 - 1;
                let len2 = pedigree2[k].generation as i64 - 1;
                let t = path_weight(len1 + len2);
                total = add_saturating(total, t);
            }
            i = i + 1;
        }
        assert(c.subrange(0, c.len() as int) =~= c);
        total
    }

    /// "unrelated" without shared ancestors, "half-sibling" with one,
    /// "full-sibling" with more.
    pub fn determine_relationship_type(
        &self,
        common_ancestors: &Vec<PedigreeNode>,
        _pedigree1: &Vec<PedigreeNode>,
        _pedigree2: &Vec<PedigreeNode>,
    ) -> (r: String)
        ensures
            r@ == kind_of_sharing(common_ancestors@.len()),
    {
        if common_ancestors.len() == 0 {
            String::from_str("unrelated")
        } else if common_ancestors.len() == 1 {
            String::from_str("half-sibling")
        } else {
            String::from_str("full-sibling")
        }
    }

    /// The risk band of a coefficient (see `risk_of`).
    pub fn assess_inbreeding_risk(&self, coefficient: u128) -> (r: InbreedingRisk)
        ensures
            r == risk_of(coefficient),
    {
        if coefficient >= 0x4000000000000000 {
            InbreedingRisk::High
        } else if coefficient >= 0x2000000000000000 {
            InbreedingRisk::Medium
        } else if coefficient >= 0x1000000000000000 {
            InbreedingRisk::Low
        } else {
            InbreedingRisk::Minimal
        }
    }

    /// Advice on pairing for a coefficient (see `advice`).
    pub fn generate_breeding_recommendation(&self, coefficient: u128) -> (r: String)
        ensures
            r@ == advice(coefficient),
    {
        if coefficient >= 0x4000000000000000 {
            String::from_str("不建议配对，近交系数过高")
        } else if coefficient >= 0x2000000000000000 {
            String::from_str("需要谨慎考虑，建议选择更远的亲缘关系")
        } else if coefficient >= 0x1000000000000000 {
            String::from_str("可接受，但需注意后代健康")
        } else {
            String::from_str("推荐的配对，近交风险很低")
        }
    }

    /// Relates two pigeons through their ancestries up to ten generations:
    /// shared ancestors, coefficient, kind, risk and advice.
    pub fn analyze_relationship(&self, pigeon1_id: i32, pigeon2_id: i32) -> (r:
        AdvancedRelationshipAnalysis)
        ensures
            ({
                let p1 = ancestor_walk(self.pedigree@, Some(pigeon1_id), 1, 10, false);
                let p2 = ancestor_walk(self.pedigree@, Some(pigeon2_id), 1, 10, false);
                let common = shared_once(p1, p2);
                let c = saturate(coefficient_units(common, p1, p2));
                &&& r.pigeon1_id == pigeon1_id
                &&& r.pigeon2_id == pigeon2_id
                &&& r.common_ancestors@ == common
                &&& r.relationship_coefficient as nat == c
                &&& r.relationship_type@ == kind_of_sharing(common.len())
                &&& r.inbreeding_risk == risk_of(c as u128)
                &&& r.breeding_recommendation@ == advice(c as u128)
            }),
    {
        let pedigree1 = self.get_all_ancestors(pigeon1_id, 10);
        let pedigree2 = self.get_all_ancestors(pigeon2_id, 10);
        proof {
            crate::pedigree::lemma_walk_generations(self.pedigree@, Some(pigeon1_id), 1, 10, false);
            crate::pedigree::lemma_walk_generations(self.pedigree@, Some(pigeon2_id), 1, 10, false);
        }
        let common_ancestors = self.find_common_ancestors(&pedigree1, &pedigree2);
        let relationship_coefficient = self.calculate_relationship_coefficient(
            &common_ancestors,
            &pedigree1,
            &pedigree2,
        );
        let relationship_type = self.determine_relationship_type(
            &common_ancestors,
            &pedigree1,
            &pedigree2,
        );
        let inbreeding_risk = self.assess_inbreeding_risk(relationship_coefficient);
        let breeding_recommendation = self.generate_breeding_recommendation(relationship_coefficient);
        AdvancedRelationshipAnalysis {
            pigeon1_id,
            pigeon2_id,
            relationship_type,
            relationship_coefficient,
            common_ancestors,
            inbreeding_risk,
            breeding_recommendation,
        }
    }

    /// Kinship of two pigeons (see `kinship_units`).
    pub fn kinship(&self, a: Option<i32>, b: Option<i32>, fuel: usize) -> (r: u128)
        ensures
            r as nat == kinship_units(self.pedigree@, a, b, fuel as nat),
            r <= 0x10000000000000000,
        decreases fuel,
    {
        if fuel == 0 {
            return 0;
        }
        let (x, y) = match (a, b) {
            (Some(x), Some(y)) => (x, y),
            _ => return 0,
        };
        let i = match self.pedigree.find(x) {
            Some(i) => i,
            None => return 0,
        };
        let j = match self.pedigree.find(y) {
            Some(j) => j,
            None => return 0,
        };
        proof {
            lemma_first_index_unique(self.pedigree@, x, i as int);
            lemma_first_index_unique(self.pedigree@, y, j as int);
        }
        let nx = &self.pedigree.nodes[i];
        let ny = &self.pedigree.nodes[j];
        if x == y {
            let k = self.kinship(nx.sire_id, nx.dam_id, fuel - 1);
            (0x10000000000000000 + k) / 2
        } else if nx.year >= ny.year {
            let k1 = self.kinship(nx.sire_id, b, fuel - 1);
            let k2 = self.kinship(nx.dam_id, b, fuel - 1);
            (k1 + k2) / 2
        } else {
            let k1 = self.kinship(a, ny.sire_id, fuel - 1);
            let k2 = self.kinship(a, ny.dam_id, fuel - 1);
            (k1 + k2) / 2
        }
    }

    /// The inbreeding coefficient of a pigeon in units of `2^-64` (see
    /// `inbreeding_units`); it lies between 0 and 1 (`2^64`).
    pub fn calculate_inbreeding_coefficient_advanced(&self, pigeon_id: i32) -> (r: u128)
        ensures
            r as nat == inbreeding_units(self.pedigree@, pigeon_id),
            r <= 0x10000000000000000,
    {
        match self.pedigree.find(pigeon_id) {
            None => 0,
            Some(i) => {
                proof {
                    lemma_first_index_unique(self.pedigree@, pigeon_id, i as int);
                }
                let n = &self.pedigree.nodes[i];
                self.kinship(n.sire_id, n.dam_id, KINSHIP_STEPS)
            },
        }
    }

    /// Strength of a parent line (see `line_strength`).
    pub fn calculate_line_strength_score(&self, line: &Vec<PedigreeNode>) -> (r: u32)
        ensures
            r as nat == line_strength(line@),
    {
        let ghost s = line@;
        let ghost pred = |n: PedigreeNode| is_renowned(n);
        let mut renowned: usize = 0;
        let mut i: usize = 0;
        while i < line.len()
            invariant
                0 <= i <= s.len(),
                s == line@,
                pred == (|n: PedigreeNode| is_renowned(n)),
                renowned as nat == s.subrange(0, i as int).filter(pred).len(),
                renowned <= i,
            decreases s.len() - i,
        {
            proof {
                reveal(Seq::filter);
            }
            assert(s.subrange(0, i + 1).drop_last() =~= s.subrange(0, i as int));
            if has_renowned_name(&line[i]) {
                renowned = renowned + 1;
            }
            i = i + 1;
        }
        assert(s.subrange(0, s.len() as int) =~= s);
        let depth: usize = if line.len() < 10 {
            line.len()
        } else {
            10
        };
        if renowned >= 5 {
            return 100;
        }
        let score = depth * 10 + renowned * 20;
        if score < 100 {
            score as u32
        } else {
            100
        }
    }

    /// The nodes of both lines, sire line first, whose names mark them as
    /// notable (see `is_notable`).
    pub fn find_notable_ancestors(&self, sire_line: &Vec<PedigreeNode>, dam_line: &Vec<PedigreeNode>) -> (r:
        Vec<PedigreeNode>)
        ensures
            r@ == (sire_line@ + dam_line@).filter(|n: PedigreeNode| is_notable(n)),
    {
        let mut notable: Vec<PedigreeNode> = Vec::new();
        push_notable(sire_line, &mut notable);
        push_notable(dam_line, &mut notable);
        proof {
            Seq::filter_distributes_over_add(sire_line@, dam_line@, |n: PedigreeNode| is_notable(n));
        }
        assert(notable@ =~= (sire_line@ + dam_line@).filter(|n: PedigreeNode| is_notable(n)));
        notable
    }

    /// Both parent lines of a pigeon up to ten generations, their strengths,
    /// the stronger one and the notable pigeons on them.
    pub fn analyze_line_strength(&self, pigeon_id: i32) -> (r: LineStrengthAnalysis)
        ensures
            ({
                let sire = line_walk(self.pedigree@, Some(pigeon_id), 1, 10, true);
                let dam = line_walk(self.pedigree@, Some(pigeon_id), 1, 10, false);
                &&& r.pigeon_id == pigeon_id
                &&& r.sire_line_depth as int == sire.len()
                &&& r.dam_line_depth as int == dam.len()
                &&& r.sire_line_strength as nat == line_strength(sire)
                &&& r.dam_line_strength as nat == line_strength(dam)
                &&& r.dominant_line == dominant(line_strength(sire), line_strength(dam))
                &&& r.notable_ancestors@ == (sire + dam).filter(|n: PedigreeNode| is_notable(n))
            }),
    {
        let sire_line = self.get_sire_line(pigeon_id, 10);
        let dam_line = self.get_dam_line(pigeon_id, 10);
        proof {
            lemma_line_len(self.pedigree@, Some(pigeon_id), 1, 10, true);
            lemma_line_len(self.pedigree@, Some(pigeon_id), 1, 10, false);
        }
        let sire_strength = self.calculate_line_strength_score(&sire_line);
        let dam_strength = self.calculate_line_strength_score(&dam_line);
        let dominant_line = if sire_strength > dam_strength {
            LineType::Sire
        } else if dam_strength > sire_strength {
            LineType::Dam
        } else {
            LineType::Balanced
        };
        let notable_ancestors = self.find_notable_ancestors(&sire_line, &dam_line);
        LineStrengthAnalysis {
            pigeon_id,
            sire_line_depth: sire_line.len() as i32,
            dam_line_depth: dam_line.len() as i32,
            sire_line_strength: sire_strength,
            dam_line_strength: dam_strength,
            dominant_line,
            notable_ancestors,
        }
    }
}

/// How uniform the strains of a pigeon's ancestry are.
#[derive(Debug, Clone, Copy, PartialEq, Eq, Structural)]
pub enum PurityScore {
    Excellent,
    Good,
    Fair,
    Poor,
}

/// One strain of an ancestry and the number of ancestors of that strain.
#[derive(Debug, Clone)]
pub struct StrainPurity {
    pub strain: String,
    pub count: i32,
}

/// The strain make-up of a pigeon's ancestry.
#[derive(Debug, Clone)]
pub struct BreedPurityAnalysis {
    pub pigeon_id: i32,
    /// Ancestors whose strain is known.
    pub total_ancestors: i32,
    /// Strains by count, highest first; equal counts in the order the strains
    /// are first met.
    pub strain_purity: Vec<StrainPurity>,
    pub purity_score: PurityScore,
    pub recommended_breeding_strategy: String,
}

/// A strain and its count as plain values.
pub open spec fn entry_view(e: StrainPurity) -> (Seq<char>, nat) {
    (e.strain@, e.count as nat)
}

/// The strains of `t` differ from each other.
pub open spec fn strains_distinct(t: Seq<(Seq<char>, nat)>) -> bool {
    forall|a: int, b: int| 0 <= a < t.len() && 0 <= b < t.len() && a != b ==> t[a].0 != t[b].0
}

/// One more ancestor of strain `st`: its count goes up, or it is added with
/// count one.
pub open spec fn tally_add(t: Seq<(Seq<char>, nat)>, st: Seq<char>) -> Seq<(Seq<char>, nat)> {
    if exists|k: int| 0 <= k < t.len() && t[k].0 == st {
        let k = choose|k: int| 0 <= k < t.len() && t[k].0 == st;
        t.update(k, (st, t[k].1 + 1))
    } else {
        t.push((st, 1))
    }
}

/// The strains of the nodes that have one, each with its number of nodes, in
/// the order the strains are first met.
pub open spec fn strain_tally(s: Seq<PedigreeNode>) -> Seq<(Seq<char>, nat)>
    decreases s.len(),
{
    if s.len() == 0 {
        seq![]
    } else {
        let t = strain_tally(s.drop_last());
        match s.last().strain {
            Some(st) => tally_add(t, st@),
            None => t,
        }
    }
}

/// The nodes whose strain is known.
pub open spec fn with_strain(s: Seq<PedigreeNode>) -> nat {
    s.filter(|n: PedigreeNode| n.strain is Some).len()
}

/// An entry has count `c`.
pub open spec fn has_count(c: nat) -> spec_fn((Seq<char>, nat)) -> bool {
    |e: (Seq<char>, nat)| e.1 == c
}

/// The entries of `t`, those with count `c` first, then those with `c - 1`,
/// down to count one.
pub open spec fn by_count(t: Seq<(Seq<char>, nat)>, c: nat) -> Seq<(Seq<char>, nat)>
    decreases c,
{
    if c == 0 {
        seq![]
    } else {
        t.filter(has_count(c)) + by_count(t, (c - 1) as nat)
    }
}

/// The score of a dominant strain holding `top` of `total` ancestors: from
/// 90% excellent, from 75% good, from 50% fair, else poor.
pub open spec fn purity_of(top: nat, total: nat) -> PurityScore {
    if top * 100 >= total * 90 && total > 0 {
        PurityScore::Excellent
    } else if top * 100 >= total * 75 && total > 0 {
        PurityScore::Good
    } else if top * 100 >= total * 50 && total > 0 {
        PurityScore::Fair
    } else {
        PurityScore::Poor
    }
}

/// Breeding advice for a dominant strain holding `top` of `total` ancestors
/// (`total` zero: no strain known).
pub open spec fn strategy_of(top: nat, total: nat) -> Seq<char> {
    if total == 0 {
        "建议纯系繁殖以建立稳定的品种特征"@
    } else if top * 100 >= total * 90 {
        "品种纯度很高，建议进行异系引入以避免近交衰退"@
    } else if top * 100 >= total * 75 {
        "品种纯度良好，可在保持纯度的同时适当引入新血"@
    } else if top * 100 >= total * 50 {
        "品种纯度中等，建议进行纯系选育以提高纯度"@
    } else {
        "品种纯度较低，建议制定系统的繁殖计划以提高品种一致性"@
    }
}

/// The count of the first entry, zero for none.
pub open spec fn top_count(t: Seq<(Seq<char>, nat)>) -> nat {
    if t.len() == 0 {
        0
    } else {
        t[0].1
    }
}

/// The position of the strain `st` in `strains`.
fn strain_position(strains: &Vec<String>, st: &String) -> (r: Option<usize>)
    ensures
        match r {
            Some(k) => k < strains@.len() && strains@[k as int]@ == st@,
            None => forall|j: int| 0 <= j < strains@.len() ==> strains@[j]@ != st@,
        },
{
    let mut k: usize = 0;
    while k < strains.len()
        invariant
            0 <= k <= strains@.len(),
            forall|j: int| 0 <= j < k ==> strains@[j]@ != st@,
        decreases strains@.len() - k,
    {
        if strains[k] == *st {
            return Some(k);
        }
        k = k + 1;
    }
    None
}

/// Counts the strains of `nodes` (see `strain_tally`).
fn tally_strains(nodes: &Vec<PedigreeNode>) -> (r: (Vec<String>, Vec<usize>, usize))
    ensures
        r.0@.len() == r.1@.len(),
        r.0@.len() == strain_tally(nodes@).len(),
        forall|k: int| 0 <= k < r.0@.len() ==> strain_tally(nodes@)[k] == (r.0@[k]@, r.1@[k] as nat),
        strains_distinct(strain_tally(nodes@)),
        forall|k: int| 0 <= k < r.1@.len() ==> 1 <= #[trigger] r.1@[k] <= r.2,
        r.2 as nat == with_strain(nodes@),
        r.2 <= nodes@.len(),
{
    let ghost s = nodes@;
    let mut strains: Vec<String> = Vec::new();
    let mut counts: Vec<usize> = Vec::new();
    let mut total: usize = 0;
    let mut i: usize = 0;
    while i < nodes.len()
        invariant
            0 <= i <= s.len(),
            s == nodes@,
            strains@.len() == counts@.len(),
            strains@.len() == strain_tally(s.subrange(0, i as int)).len(),
            forall|k: int|
                0 <= k < strains@.len() ==> strain_tally(s.subrange(0, i as int))[k] == (
                    strains@[k]@,
                    counts@[k] as nat,
                ),
            strains_distinct(strain_tally(s.subrange(0, i as int))),
            forall|k: int| 0 <= k < counts@.len() ==> 1 <= #[trigger] counts@[k] <= total,
            total as nat == with_strain(s.subrange(0, i as int)),
            total <= i,
        decreases s.len() - i,
    {
        let ghost t = strain_tally(s.subrange(0, i as int));
        assert(s.subrange(0, i + 1).drop_last() =~= s.subrange(0, i as int));
        proof {
            reveal(Seq::filter);
        }
        if let Some(st) = &nodes[i].strain {
            let pos = strain_position(&strains, st);
            if let Some(k) = pos {
                proof {
                    assert(t[k as int] == (strains@[k as int]@, counts@[k as int] as nat));
                    assert(0 <= k < t.len() && t[k as int].0 == st@);
                    let c = choose|c: int| 0 <= c < t.len() && t[c].0 == st@;
                    assert(strains_distinct(t));
                    assert(c == k as int);
                }
                let c = counts[k];
                counts.set(k, c + 1);
            } else {
                strains.push(st.clone());
                counts.push(1);
            }
            total = total + 1;
        }
        i = i + 1;
    }
    assert(s.subrange(0, s.len() as int) =~= s);
    (strains, counts, total)
}

impl PedigreeService {
    /// The strains of a pigeon's ancestry up to the fifth generation (the
    /// pigeon included): counts by strain, highest first, the score of the
    /// dominant strain and matching advice.
    pub fn analyze_breed_purity(&self, pigeon_id: i32) -> (r: BreedPurityAnalysis)
        ensures
            ({
                let p = ancestor_walk(self.pedigree@, Some(pigeon_id), 1, 5, false);
                let total = with_strain(p);
                let ranked = by_count(strain_tally(p), total);
                &&& r.pigeon_id == pigeon_id
                &&& r.total_ancestors as nat == total
                &&& r.strain_purity@.map_values(|e: StrainPurity| entry_view(e)) == ranked
                &&& r.purity_score == purity_of(top_count(ranked), total)
                &&& r.recommended_breeding_strategy@ == strategy_of(top_count(ranked), total)
            }),
    {
        let pedigree = self.get_all_ancestors(pigeon_id, 5);
        proof {
            crate::pedigree::lemma_walk_len(self.pedigree@, Some(pigeon_id), 1, 5, false);
            lemma2_to64();
        }
        let (strains, counts, total) = tally_strains(&pedigree);
        let ghost t = strain_tally(pedigree@);
        let ghost vw = |e: StrainPurity| entry_view(e);
        let mut ranked: Vec<StrainPurity> = Vec::new();
        let mut c: usize = total;
        while c > 0
            invariant
                c <= total <= 32,
                strains@.len() == counts@.len() == t.len(),
                forall|k: int| 0 <= k < t.len() ==> t[k] == (strains@[k]@, counts@[k] as nat),
                forall|k: int| 0 <= k < counts@.len() ==> 1 <= #[trigger] counts@[k] <= total,
                vw == (|e: StrainPurity| entry_view(e)),
                forall|j: int| 0 <= j < ranked@.len() ==> 1 <= #[trigger] ranked@[j].count <= 32,
                ranked@.map_values(vw) + by_count(t, c as nat) == by_count(t, total as nat),
            decreases c,
        {
            let ghost before = ranked@.map_values(vw);
            let ghost pred = has_count(c as nat);
            let mut k: usize = 0;
            while k < strains.len()
                invariant
                    0 <= k <= t.len(),
                    1 <= c <= total <= 32,
                    strains@.len() == counts@.len() == t.len(),
                    forall|j: int| 0 <= j < t.len() ==> t[j] == (strains@[j]@, counts@[j] as nat),
                    vw == (|e: StrainPurity| entry_view(e)),
                    pred == has_count(c as nat),
                    forall|j: int| 0 <= j < ranked@.len() ==> 1 <= #[trigger] ranked@[j].count <= 32,
                    ranked@.map_values(vw) == before + t.subrange(0, k as int).filter(pred),
                decreases t.len() - k,
            {
                proof {
                    reveal(Seq::filter);
                }
                assert(t.subrange(0, k + 1).drop_last() =~= t.subrange(0, k as int));
                if counts[k] == c {
                    let ghost old_ranked = ranked@;
                    ranked.push(StrainPurity { strain: strains[k].clone(), count: c as i32 });
                    assert(ranked@.map_values(vw) =~= old_ranked.map_values(vw).push(t[k as int]));
                }
                k = k + 1;
            }
            assert(t.subrange(0, t.len() as int) =~= t);
            assert(by_count(t, c as nat) == t.filter(pred) + by_count(t, (c - 1) as nat));
            c = c - 1;
        }
        assert(ranked@.map_values(vw) =~= by_count(t, total as nat));
        assert(ranked@.len() > 0 ==> ranked@.map_values(vw)[0] == entry_view(ranked@[0]));
        let top: usize = if ranked.len() > 0 {
            ranked[0].count as usize
        } else {
            0
        };
        let purity_score = if total > 0 && top * 100 >= total * 90 {
            PurityScore::Excellent
        } else if total > 0 && top * 100 >= total * 75 {
            PurityScore::Good
        } else if total > 0 && top * 100 >= total * 50 {
            PurityScore::Fair
        } else {
            PurityScore::Poor
        };
        let recommended_breeding_strategy = if total == 0 {
            String::from_str("建议纯系繁殖以建立稳定的品种特征")
        } else if top * 100 >= total * 90 {
            String::from_str("品种纯度很高，建议进行异系引入以避免近交衰退")
        } else if top * 100 >= total * 75 {
            String::from_str("品种纯度良好，可在保持纯度的同时适当引入新血")
        } else if top * 100 >= total * 50 {
            String::from_str("品种纯度中等，建议进行纯系选育以提高纯度")
        } else {
            String::from_str("品种纯度较低，建议制定系统的繁殖计划以提高品种一致性")
        };
        BreedPurityAnalysis {
            pigeon_id,
            total_ancestors: total as i32,
            strain_purity: ranked,
            purity_score,
            recommended_breeding_strategy,
        }
    }
}

} // verus!
