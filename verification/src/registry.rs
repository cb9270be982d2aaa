//! The role registry: which role each button id toggles.

use crate::config::{option_entries, options_get_index, options_len, RoleButton, RoleChoice};
use indexmap::IndexMap;
use vstd::prelude::*;

verus! {

/// All (button id, role id) pairs of the groups, group after group, each
/// group in document order.
pub open spec fn flat_bindings(groups: Seq<RoleChoice>) -> Seq<(Seq<char>, u64)>
    decreases groups.len(),
{
    if groups.len() == 0 {
        Seq::empty()
    } else {
        flat_bindings(groups.drop_last()) + groups.last().bindings()
    }
}

/// No button id occurs twice.
pub open spec fn ids_distinct(bindings: Seq<(Seq<char>, u64)>) -> bool {
    forall|i: int, j: int|
        0 <= i < j < bindings.len() ==> (#[trigger] bindings[i]).0 != (#[trigger] bindings[j]).0
}

/// The id at `j` was already used at an earlier position.
pub open spec fn repeats_earlier(bindings: Seq<(Seq<char>, u64)>, j: int) -> bool {
    exists|i: int| 0 <= i < j && (#[trigger] bindings[i]).0 == bindings[j].0
}

/// `j` is the first position whose id was already used before it.
pub open spec fn first_repeat(bindings: Seq<(Seq<char>, u64)>, j: int) -> bool {
    &&& 0 <= j < bindings.len()
    &&& ids_distinct(bindings.take(j))
    &&& repeats_earlier(bindings, j)
}

/// The mapping that the bindings describe (a later binding of an id would
/// replace an earlier one).
pub open spec fn mapping_of(bindings: Seq<(Seq<char>, u64)>) -> Map<Seq<char>, u64>
    decreases bindings.len(),
{
    if bindings.len() == 0 {
        Map::empty()
    } else {
        mapping_of(bindings.drop_last()).insert(bindings.last().0, bindings.last().1)
    }
}

/// What looking `id` up in `mapping` gives.
pub open spec fn lookup(mapping: Map<Seq<char>, u64>, id: Seq<char>) -> Option<u64> {
    if mapping.contains_key(id) {
        Some(mapping[id])
    } else {
        None
    }
}

/// What building a registry from `groups` gives: the mapping, or the id
/// that is bound a second time.
pub open spec fn build_outcome(groups: Seq<RoleChoice>) -> Result<Map<Seq<char>, u64>, Seq<char>> {
    let bindings = flat_bindings(groups);
    if ids_distinct(bindings) {
        Ok(mapping_of(bindings))
    } else {
        Err(bindings[choose|j: int| first_repeat(bindings, j)].0)
    }
}

/// Why a registry could not be built.
#[derive(Debug, PartialEq, Eq, Clone)]
pub enum RegistryError {
    /// Two buttons share this id, so a press could not be routed.
    DuplicateButton { button_id: String },
}

/// What a registry's table holds: the role id under each button id.
pub uninterp spec fn registry_entries(table: IndexMap<String, u64>) -> Map<Seq<char>, u64>;

/// `IndexMap::new`: a table without entries.
#[verifier::external_body]
fn table_new() -> (fresh: IndexMap<String, u64>)
    ensures
        registry_entries(fresh) == mapping_of(Seq::empty()),
{
    IndexMap::new()
}

/// `IndexMap::insert`: binds `id` to `role_id`, replacing what `id` was
/// bound to, and returns the role that it was bound to before, if any.
#[verifier::external_body]
fn table_insert(table: &mut IndexMap<String, u64>, id: String, role_id: u64) -> (previous: Option<
    u64,
>)
    ensures
        registry_entries(*final(table)) == registry_entries(*old(table)).insert(id@, role_id),
        previous == lookup(registry_entries(*old(table)), id@),
{
    table.insert(id, role_id)
}

/// `IndexMap::get`: the role bound to `id`, if `id` is bound.
#[verifier::external_body]
fn table_get<'a>(table: &'a IndexMap<String, u64>, id: &str) -> (found: Option<&'a u64>)
    ensures
        match found {
            Some(role_id) => lookup(registry_entries(*table), id@) == Some(*role_id),
            None => lookup(registry_entries(*table), id@) is None,
        },
{
    table.get(id)
}

/// The flattened, read-only mapping from button id to role id.
pub struct RoleRegistry {
    table: IndexMap<String, u64>,
}

impl View for RoleRegistry {
    type V = Map<Seq<char>, u64>;

    closed spec fn view(&self) -> Map<Seq<char>, u64> {
        registry_entries(self.table)
    }
}

/// An id is bound by `mapping_of` exactly when some binding carries it.
pub proof fn lemma_mapping_domain(bindings: Seq<(Seq<char>, u64)>, id: Seq<char>)
    ensures
        mapping_of(bindings).contains_key(id) <==> exists|i: int|
            0 <= i < bindings.len() && (#[trigger] bindings[i]).0 == id,
    decreases bindings.len(),
{
    if bindings.len() > 0 {
        let front = bindings.drop_last();
        lemma_mapping_domain(front, id);
        if mapping_of(bindings).contains_key(id) {
            if bindings.last().0 == id {
                assert(bindings[bindings.len() - 1].0 == id);
            } else {
                let i = choose|i: int| 0 <= i < front.len() && (#[trigger] front[i]).0 == id;
                assert(bindings[i].0 == id);
            }
        }
        if exists|i: int| 0 <= i < bindings.len() && (#[trigger] bindings[i]).0 == id {
            let i = choose|i: int| 0 <= i < bindings.len() && (#[trigger] bindings[i]).0 == id;
            if i < front.len() {
                assert(front[i].0 == id);
            }
        }
    }
}

/// Where no id occurs twice, `mapping_of` binds the id at each position to
/// the role at that position.
pub proof fn lemma_mapping_value(bindings: Seq<(Seq<char>, u64)>, i: int)
    requires
        ids_distinct(bindings),
        0 <= i < bindings.len(),
    ensures
        lookup(mapping_of(bindings), bindings[i].0) == Some(bindings[i].1),
    decreases bindings.len(),
{
    let front = bindings.drop_last();
    if i < bindings.len() - 1 {
        assert(ids_distinct(front)) by {
            assert forall|a: int, b: int| 0 <= a < b < front.len() implies (#[trigger] front[a]).0
                != (#[trigger] front[b]).0 by {
                assert(bindings[a].0 != bindings[b].0);
            }
        }
        lemma_mapping_value(front, i);
        assert(front[i] == bindings[i]);
        assert(bindings[i].0 != bindings[bindings.len() - 1].0);
    }
}

proof fn lemma_flat_step(groups: Seq<RoleChoice>, g: int)
    requires
        0 <= g < groups.len(),
    ensures
        flat_bindings(groups.take(g + 1)) == flat_bindings(groups.take(g)) + groups[g].bindings(),
{
    assert(groups.take(g + 1).drop_last() =~= groups.take(g));
}

/// At most one position is the first repeat.
proof fn lemma_first_repeat_unique(bindings: Seq<(Seq<char>, u64)>, j: int, k: int)
    requires
        first_repeat(bindings, j),
        first_repeat(bindings, k),
    ensures
        j == k,
{
    if j < k {
        let i = choose|i: int| 0 <= i < j && (#[trigger] bindings[i]).0 == bindings[j].0;
        assert(bindings.take(k)[i].0 == bindings.take(k)[j].0);
    } else if k < j {
        let i = choose|i: int| 0 <= i < k && (#[trigger] bindings[i]).0 == bindings[k].0;
        assert(bindings.take(j)[i].0 == bindings.take(j)[k].0);
    }
}

impl RoleRegistry {
    /// Builds the registry from the configured groups. Fails when a button
    /// id is bound twice, and then names the id at its first repetition.
    pub fn build(groups: &Vec<RoleChoice>) -> (r: Result<RoleRegistry, RegistryError>)
        ensures
            match r {
                Ok(registry) => build_outcome(groups@) matches Ok(mapping) && mapping == registry@,
                Err(RegistryError::DuplicateButton { button_id }) => build_outcome(groups@) matches Err(
                    id,
                ) && id == button_id@,
            },
    {
        let mut table = table_new();
        let ghost all = flat_bindings(groups@);
        let mut g: usize = 0;
        while g < groups.len()
            invariant
                g <= groups.len(),
                all == flat_bindings(groups@),
                ids_distinct(flat_bindings(groups@.take(g as int))),
                registry_entries(table) == mapping_of(flat_bindings(groups@.take(g as int))),
                flat_bindings(groups@.take(g as int)).len() <= all.len(),
                all.take(flat_bindings(groups@.take(g as int)).len() as int) == flat_bindings(
                    groups@.take(g as int),
                ),
            decreases groups.len() - g,
        {
            let group = &groups[g];
            let ghost before = flat_bindings(groups@.take(g as int));
            let ghost here = group.bindings();
            proof {
                lemma_flat_step(groups@, g as int);
                lemma_flat_prefix(groups@, g as int + 1);
            }
            let n = options_len(&group.options);
            let mut k: usize = 0;
            while k < n
                invariant
                    k <= n,
                    n == here.len(),
                    here == group.bindings(),
                    all == flat_bindings(groups@),
                    before.len() + here.len() <= all.len(),
                    all.take((before.len() + here.len()) as int) == before + here,
                    ids_distinct(before + here.take(k as int)),
                    registry_entries(table) == mapping_of(before + here.take(k as int)),
                decreases n - k,
            {
                let ghost done = before + here.take(k as int);
                match options_get_index(&group.options, k) {
                    Some((id, button)) => {
                        let ghost next = before + here.take(k as int + 1);
                        proof {
                            assert(here[k as int] == (id@, button.role_id));
                            assert(next =~= done.push(here[k as int]));
                            assert(next.drop_last() =~= done);
                            assert(next =~= all.take(next.len() as int)) by {
                                assert((before + here).take(next.len() as int) =~= next);
                                assert(all.take(next.len() as int) =~= all.take(
                                    (before.len() + here.len()) as int,
                                ).take(next.len() as int));
                            }
                            lemma_mapping_domain(done, id@);
                        }
                        if table_get(&table, id.as_str()).is_some() {
                            proof {
                                let j = done.len() as int;
                                let i = choose|i: int|
                                    0 <= i < done.len() && (#[trigger] done[i]).0 == id@;
                                assert(all[i] == done[i]) by {
                                    assert(next[i] == done[i]);
                                    assert(all.take(next.len() as int)[i] == all[i]);
                                }
                                assert(all[j] == next[j]) by {
                                    assert(all.take(next.len() as int)[j] == all[j]);
                                }
                                assert(all.take(j) =~= done) by {
                                    assert(all.take(next.len() as int).take(j) =~= all.take(j));
                                }
                                assert(repeats_earlier(all, j));
                                assert(first_repeat(all, j));
                                assert(!ids_distinct(all));
                                let c = choose|c: int| first_repeat(all, c);
                                lemma_first_repeat_unique(all, j, c);
                            }
                            return Err(RegistryError::DuplicateButton { button_id: id.clone() });
                        }
                        table_insert(&mut table, id.clone(), button.role_id);
                        proof {
                            assert(ids_distinct(next)) by {
                                assert forall|a: int, b: int| 0 <= a < b < next.len() implies (
                                #[trigger] next[a]).0 != (#[trigger] next[b]).0 by {
                                    if b < done.len() {
                                        assert(done[a].0 != done[b].0);
                                    } else {
                                        assert(done[a].0 == next[a].0);
                                    }
                                }
                            }
                        }
                    },
                    None => {
                        assert(false);
                    },
                }
                k += 1;
            }
            proof {
                assert(here.take(n as int) =~= here);
            }
            g += 1;
        }
        proof {
            assert(groups@.take(g as int) =~= groups@);
        }
        Ok(RoleRegistry { table })
    }

    /// The role that button `id` toggles; none when `id` is no role button.
    pub fn resolve(&self, id: &str) -> (role: Option<u64>)
        ensures
            role == lookup(self@, id@),
    {
        match table_get(&self.table, id) {
            Some(role_id) => Some(*role_id),
            None => None,
        }
    }
}

/// The bindings of the first `n` groups open the bindings of all groups.
proof fn lemma_flat_prefix(groups: Seq<RoleChoice>, n: int)
    requires
        0 <= n <= groups.len(),
    ensures
        flat_bindings(groups.take(n)).len() <= flat_bindings(groups).len(),
        flat_bindings(groups).take(flat_bindings(groups.take(n)).len() as int) == flat_bindings(
            groups.take(n),
        ),
    decreases groups.len() - n,
{
    if n == groups.len() {
        assert(groups.take(n) =~= groups);
        assert(flat_bindings(groups).take(flat_bindings(groups).len() as int) =~= flat_bindings(
            groups,
        ));
    } else {
        lemma_flat_prefix(groups, n + 1);
        lemma_flat_step(groups, n);
        let short = flat_bindings(groups.take(n));
        let long = flat_bindings(groups.take(n + 1));
        assert(long.take(short.len() as int) =~= short);
        assert(flat_bindings(groups).take(long.len() as int).take(short.len() as int)
            =~= flat_bindings(groups).take(short.len() as int));
    }
}

/// The binding at position `k` of group `g`.
pub open spec fn binding_at(groups: Seq<RoleChoice>, g: int, k: int) -> (Seq<char>, u64) {
    groups[g].bindings()[k]
}

/// `g` and `k` name a button of the configuration.
pub open spec fn in_groups(groups: Seq<RoleChoice>, g: int, k: int) -> bool {
    0 <= g < groups.len() && 0 <= k < groups[g].bindings().len()
}

/// Some group of the configuration has a button with this id.
pub open spec fn is_configured(groups: Seq<RoleChoice>, id: Seq<char>) -> bool {
    exists|g: int, k: int| in_groups(groups, g, k) && (#[trigger] binding_at(groups, g, k)).0 == id
}

/// Where the bindings of group `g` start among the bindings of all groups.
pub open spec fn group_start(groups: Seq<RoleChoice>, g: int) -> int {
    flat_bindings(groups.take(g)).len() as int
}

/// The button at position `k` of group `g` stands at `group_start + k`
/// among the bindings of all groups, and groups follow one another.
proof fn lemma_flat_position(groups: Seq<RoleChoice>, g: int, k: int)
    requires
        in_groups(groups, g, k),
    ensures
        0 <= group_start(groups, g) + k < group_start(groups, g + 1) <= flat_bindings(groups).len(),
        flat_bindings(groups)[group_start(groups, g) + k] == binding_at(groups, g, k),
{
    let flat = flat_bindings(groups);
    lemma_flat_step(groups, g);
    lemma_flat_prefix(groups, g + 1);
    let upto = flat_bindings(groups.take(g + 1));
    assert(flat.take(upto.len() as int)[group_start(groups, g) + k] == flat[group_start(groups, g)
        + k]);
}

/// Group starts do not go down as the group index goes up.
proof fn lemma_group_start_monotonic(groups: Seq<RoleChoice>, a: int, b: int)
    requires
        0 <= a <= b <= groups.len(),
    ensures
        group_start(groups, a) <= group_start(groups, b),
{
    lemma_flat_prefix(groups.take(b), a);
    assert(groups.take(b).take(a) =~= groups.take(a));
}

/// Every position among the bindings of all groups is a button of some
/// group.
proof fn lemma_flat_origin(groups: Seq<RoleChoice>, p: int) -> (at: (int, int))
    requires
        0 <= p < flat_bindings(groups).len(),
    ensures
        in_groups(groups, at.0, at.1),
        binding_at(groups, at.0, at.1) == flat_bindings(groups)[p],
    decreases groups.len(),
{
    let front = groups.drop_last();
    if p < flat_bindings(front).len() {
        let at = lemma_flat_origin(front, p);
        assert(front[at.0] == groups[at.0]);
        at
    } else {
        (groups.len() - 1, p - flat_bindings(front).len())
    }
}

/// A configuration whose button ids are all different builds; the mapping
/// built gives each configured id its role, and gives nothing for an id
/// that no group configures.
pub proof fn law_distinct_ids_resolve(groups: Seq<RoleChoice>)
    requires
        ids_distinct(flat_bindings(groups)),
    ensures
        build_outcome(groups) matches Ok(mapping) && {
            &&& forall|g: int, k: int|
                in_groups(groups, g, k) ==> lookup(mapping, (#[trigger] binding_at(groups, g, k)).0)
                    == Some(binding_at(groups, g, k).1)
            &&& forall|id: Seq<char>| !is_configured(groups, id) ==> lookup(mapping, id) is None
        },
{
    let flat = flat_bindings(groups);
    let mapping = mapping_of(flat);
    assert forall|g: int, k: int| in_groups(groups, g, k) implies lookup(
        mapping,
        (#[trigger] binding_at(groups, g, k)).0,
    ) == Some(binding_at(groups, g, k).1) by {
        lemma_flat_position(groups, g, k);
        lemma_mapping_value(flat, group_start(groups, g) + k);
    }
    assert forall|id: Seq<char>| !is_configured(groups, id) implies lookup(mapping, id) is None by {
        lemma_mapping_domain(flat, id);
        if mapping.contains_key(id) {
            let p = choose|p: int| 0 <= p < flat.len() && (#[trigger] flat[p]).0 == id;
            let at = lemma_flat_origin(groups, p);
            assert(binding_at(groups, at.0, at.1).0 == id);
        }
    }
}

/// A configuration in which two different groups use one button id does not
/// build.
pub proof fn law_shared_id_fails(groups: Seq<RoleChoice>, g1: int, k1: int, g2: int, k2: int)
    requires
        in_groups(groups, g1, k1),
        in_groups(groups, g2, k2),
        g1 < g2,
        binding_at(groups, g1, k1).0 == binding_at(groups, g2, k2).0,
    ensures
        build_outcome(groups) is Err,
{
    let flat = flat_bindings(groups);
    lemma_flat_position(groups, g1, k1);
    lemma_flat_position(groups, g2, k2);
    lemma_group_start_monotonic(groups, g1 + 1, g2);
    let i = group_start(groups, g1) + k1;
    let j = group_start(groups, g2) + k2;
    assert(flat[i].0 == flat[j].0);
}

} // verus!
