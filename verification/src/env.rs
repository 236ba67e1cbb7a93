//! Building the environment block of a new process.
use vstd::prelude::*;
use crate::cmdline::strings_view;
use crate::wide::{extend_utf16, utf16};

verus! {

/// A variable name and its value, as text.
pub type EnvPair = (Seq<char>, Seq<char>);

/// `'='` as a UTF-16 code unit.
pub const EQUALS_SIGN: u16 = 0x3D;

/// The text view of a list of variable/value pairs.
pub open spec fn pairs_view(v: Seq<(String, String)>) -> Seq<EnvPair> {
    v.map_values(|p: (String, String)| (p.0@, p.1@))
}

/// `pairs` without the entries named `k`, in their order.
pub open spec fn without_key(pairs: Seq<EnvPair>, k: Seq<char>) -> Seq<EnvPair>
    decreases pairs.len(),
{
    if pairs.len() == 0 {
        Seq::empty()
    } else {
        let rest = without_key(pairs.drop_last(), k);
        if pairs.last().0 == k {
            rest
        } else {
            rest.push(pairs.last())
        }
    }
}

/// One override applied: the entries with its name removed, then the
/// override appended.
pub open spec fn apply_override(pairs: Seq<EnvPair>, kv: EnvPair) -> Seq<EnvPair> {
    without_key(pairs, kv.0).push(kv)
}

/// `base` with the overrides applied in order.
pub open spec fn merge_env(base: Seq<EnvPair>, overrides: Seq<EnvPair>) -> Seq<EnvPair>
    decreases overrides.len(),
{
    if overrides.len() == 0 {
        base
    } else {
        apply_override(merge_env(base, overrides.drop_last()), overrides.last())
    }
}

/// One entry of an environment block: `name=value` and a null.
pub open spec fn env_entry(kv: EnvPair) -> Seq<u16> {
    utf16(kv.0) + seq![EQUALS_SIGN] + utf16(kv.1) + seq![0u16]
}

/// The entries of an environment block, in order.
pub open spec fn env_entries(pairs: Seq<EnvPair>) -> Seq<u16>
    decreases pairs.len(),
{
    if pairs.len() == 0 {
        Seq::empty()
    } else {
        env_entries(pairs.drop_last()) + env_entry(pairs.last())
    }
}

/// `pairs` without the entries named by any of `names`.
pub open spec fn without_keys(pairs: Seq<EnvPair>, names: Seq<Seq<char>>) -> Seq<EnvPair>
    decreases names.len(),
{
    if names.len() == 0 {
        pairs
    } else {
        without_key(without_keys(pairs, names.drop_last()), names.last())
    }
}

/// The block that holds `pairs`: their entries and a final null; with no
/// entry, two nulls.
pub open spec fn block_of(pairs: Seq<EnvPair>) -> Seq<u16> {
    if pairs.len() == 0 {
        seq![0u16, 0u16]
    } else {
        env_entries(pairs).push(0u16)
    }
}

/// The variables a child gets: the inherited ones (none when cleared, and
/// without the removed names otherwise) with the overrides applied.
pub open spec fn spec_child_env(env_clear: bool, envs: Seq<EnvPair>, removed: Seq<Seq<char>>, inherited: Seq<EnvPair>) -> Seq<EnvPair> {
    let base = if env_clear { Seq::<EnvPair>::empty() } else { without_keys(inherited, removed) };
    merge_env(base, envs)
}

/// The environment block of a child: none (inherit the parent's) when the
/// environment is neither cleared nor changed; otherwise the block of its
/// variables.
pub open spec fn spec_env_block(env_clear: bool, envs: Seq<EnvPair>, removed: Seq<Seq<char>>, inherited: Seq<EnvPair>) -> Option<Seq<u16>> {
    if !env_clear && envs.len() == 0 && removed.len() == 0 {
        None
    } else {
        Some(block_of(spec_child_env(env_clear, envs, removed, inherited)))
    }
}

/// A copy of a variable/value pair.
pub fn clone_pair(p: &(String, String)) -> (c: (String, String))
    ensures
        (c.0@, c.1@) == (p.0@, p.1@),
{
    (p.0.clone(), p.1.clone())
}

/// A copy of a list of variable/value pairs.
pub fn clone_pairs(v: &Vec<(String, String)>) -> (c: Vec<(String, String)>)
    ensures
        pairs_view(c@) == pairs_view(v@),
{
    let mut c: Vec<(String, String)> = Vec::new();
    let mut i: usize = 0;
    while i < v.len()
        invariant
            i <= v.len(),
            c@.len() == i,
            pairs_view(c@) == pairs_view(v@).take(i as int),
        decreases v.len() - i,
    {
        let p = clone_pair(&v[i]);
        c.push(p);
        proof {
            assert(c@[i as int] == p);
            assert(pairs_view(c@)[i as int] == pairs_view(v@)[i as int]);
            assert(pairs_view(c@) =~= pairs_view(v@).take(i + 1));
        }
        i = i + 1;
    }
    proof {
        assert(pairs_view(v@).take(v.len() as int) =~= pairs_view(v@));
    }
    c
}

/// The pairs whose name is not `key`, in their order.
pub fn remove_key(pairs: &Vec<(String, String)>, key: &String) -> (r: Vec<(String, String)>)
    ensures
        pairs_view(r@) == without_key(pairs_view(pairs@), key@),
{
    let mut r: Vec<(String, String)> = Vec::new();
    let mut i: usize = 0;
    while i < pairs.len()
        invariant
            i <= pairs.len(),
            pairs_view(r@) == without_key(pairs_view(pairs@).take(i as int), key@),
        decreases pairs.len() - i,
    {
        let ghost t = pairs_view(pairs@).take(i + 1);
        proof {
            assert(t.drop_last() =~= pairs_view(pairs@).take(i as int));
        }
        if !(pairs[i].0 == *key) {
            r.push(clone_pair(&pairs[i]));
            proof {
                assert(pairs_view(r@) =~= without_key(pairs_view(pairs@).take(i as int), key@).push(t.last()));
            }
        }
        i = i + 1;
    }
    proof {
        assert(pairs_view(pairs@).take(pairs.len() as int) =~= pairs_view(pairs@));
    }
    r
}

/// `base` with the overrides applied in order.
pub fn merge_overrides(base: Vec<(String, String)>, envs: &Vec<(String, String)>) -> (r: Vec<(String, String)>)
    ensures
        pairs_view(r@) == merge_env(pairs_view(base@), pairs_view(envs@)),
{
    let mut pairs = base;
    let mut i: usize = 0;
    while i < envs.len()
        invariant
            i <= envs.len(),
            pairs_view(pairs@) == merge_env(pairs_view(base@), pairs_view(envs@).take(i as int)),
        decreases envs.len() - i,
    {
        let mut next = remove_key(&pairs, &envs[i].0);
        next.push(clone_pair(&envs[i]));
        proof {
            let t = pairs_view(envs@).take(i + 1);
            assert(t.drop_last() =~= pairs_view(envs@).take(i as int));
            assert(pairs_view(next@) =~= apply_override(pairs_view(pairs@), t.last()));
        }
        pairs = next;
        i = i + 1;
    }
    proof {
        assert(pairs_view(envs@).take(envs.len() as int) =~= pairs_view(envs@));
    }
    pairs
}

/// `pairs` without the entries named by any of `names`.
pub fn remove_keys(pairs: Vec<(String, String)>, names: &Vec<String>) -> (r: Vec<(String, String)>)
    ensures
        pairs_view(r@) == without_keys(pairs_view(pairs@), strings_view(names@)),
{
    let mut r = pairs;
    let mut i: usize = 0;
    while i < names.len()
        invariant
            i <= names.len(),
            pairs_view(r@) == without_keys(pairs_view(pairs@), strings_view(names@).take(i as int)),
        decreases names.len() - i,
    {
        r = remove_key(&r, &names[i]);
        proof {
            let t = strings_view(names@).take(i + 1);
            assert(t.drop_last() =~= strings_view(names@).take(i as int));
            assert(t.last() == names@[i as int]@);
        }
        i = i + 1;
    }
    proof {
        assert(strings_view(names@).take(names.len() as int) =~= strings_view(names@));
    }
    r
}

/// Builds a `CREATE_UNICODE_ENVIRONMENT` block for a new process.
///
/// Returns `None` (inherit the parent environment unchanged) when
/// `env_clear` is false and neither `envs` nor `removed` holds anything.
/// Otherwise starts from `inherited` (the current process environment;
/// ignored when `env_clear`) without the `removed` names, applies the
/// overrides and additions in `envs`, and ends the block with a double null.
pub fn build_env_block(
    env_clear: bool,
    envs: &Vec<(String, String)>,
    removed: &Vec<String>,
    inherited: &Vec<(String, String)>,
) -> (b: Option<Vec<u16>>)
    ensures
        b matches Some(w) ==> spec_env_block(env_clear, pairs_view(envs@), strings_view(removed@), pairs_view(inherited@)) == Some(w@),
        b is None <==> spec_env_block(env_clear, pairs_view(envs@), strings_view(removed@), pairs_view(inherited@)) is None,
{
    if !env_clear && envs.len() == 0 && removed.len() == 0 {
        return None;
    }
    let base: Vec<(String, String)> = if env_clear { Vec::new() } else { remove_keys(clone_pairs(inherited), removed) };
    proof {
        if env_clear {
            assert(pairs_view(base@) =~= Seq::<EnvPair>::empty());
        }
    }
    let pairs = merge_overrides(base, envs);
    let mut block: Vec<u16> = Vec::new();
    let mut i: usize = 0;
    while i < pairs.len()
        invariant
            i <= pairs.len(),
            block@ == env_entries(pairs_view(pairs@).take(i as int)),
        decreases pairs.len() - i,
    {
        extend_utf16(&mut block, pairs[i].0.as_str());
        block.push(EQUALS_SIGN);
        extend_utf16(&mut block, pairs[i].1.as_str());
        block.push(0);
        proof {
            let t = pairs_view(pairs@).take(i + 1);
            assert(t.drop_last() =~= pairs_view(pairs@).take(i as int));
            assert(block@ =~= env_entries(t.drop_last()) + env_entry(t.last()));
        }
        i = i + 1;
    }
    if pairs.len() == 0 {
        // An empty block still ends in two nulls.
        block.push(0);
    }
    block.push(0);
    proof {
        assert(pairs_view(pairs@).take(pairs.len() as int) =~= pairs_view(pairs@));
        if pairs.len() == 0 {
            assert(block@ =~= seq![0u16, 0u16]);
        }
    }
    Some(block)
}

// ---------------------------------------------------------------------------
// Laws of overriding.
// ---------------------------------------------------------------------------

/// The values given to the variable `k` in `pairs`, in order.
pub open spec fn values_named(pairs: Seq<EnvPair>, k: Seq<char>) -> Seq<Seq<char>>
    decreases pairs.len(),
{
    if pairs.len() == 0 {
        Seq::empty()
    } else if pairs.last().0 == k {
        values_named(pairs.drop_last(), k).push(pairs.last().1)
    } else {
        values_named(pairs.drop_last(), k)
    }
}

/// The value of the last override of `k`, if any.
pub open spec fn last_override(overrides: Seq<EnvPair>, k: Seq<char>) -> Option<Seq<char>>
    decreases overrides.len(),
{
    if overrides.len() == 0 {
        None
    } else if overrides.last().0 == k {
        Some(overrides.last().1)
    } else {
        last_override(overrides.drop_last(), k)
    }
}

/// Removing the entries named `k2` removes all values of `k2` and keeps
/// those of every other name.
pub proof fn lemma_without_key_values(pairs: Seq<EnvPair>, k2: Seq<char>, k: Seq<char>)
    ensures
        values_named(without_key(pairs, k2), k) == (if k == k2 { Seq::<Seq<char>>::empty() } else { values_named(pairs, k) }),
    decreases pairs.len(),
{
    if pairs.len() > 0 {
        lemma_without_key_values(pairs.drop_last(), k2, k);
        let rest = without_key(pairs.drop_last(), k2);
        if pairs.last().0 != k2 {
            assert(rest.push(pairs.last()).drop_last() =~= rest);
        }
    }
}

/// After the overrides are applied, a variable that some override sets
/// holds exactly one value, the one the last such override gives; a
/// variable that no override sets keeps its inherited values.
pub proof fn lemma_last_override_wins(base: Seq<EnvPair>, overrides: Seq<EnvPair>, k: Seq<char>)
    ensures
        values_named(merge_env(base, overrides), k) == (match last_override(overrides, k) {
            Some(v) => seq![v],
            None => values_named(base, k),
        }),
    decreases overrides.len(),
{
    if overrides.len() > 0 {
        let prev = merge_env(base, overrides.drop_last());
        let kv = overrides.last();
        lemma_last_override_wins(base, overrides.drop_last(), k);
        lemma_without_key_values(prev, kv.0, k);
        let w = without_key(prev, kv.0);
        assert(w.push(kv).drop_last() =~= w);
        if kv.0 == k {
            assert(values_named(w.push(kv), k) =~= seq![kv.1]);
        }
    }
}

/// Removing a variable from the overrides leaves no value for it there, and
/// undoes setting it.
pub proof fn lemma_remove_undoes_set(pairs: Seq<EnvPair>, k: Seq<char>, v: Seq<char>)
    ensures
        values_named(without_key(pairs, k), k) == Seq::<Seq<char>>::empty(),
        without_key(pairs.push((k, v)), k) == without_key(pairs, k),
{
    lemma_without_key_values(pairs, k, k);
    assert(pairs.push((k, v)).drop_last() =~= pairs);
}

/// After removing a list of names, none of them has a value left.
pub proof fn lemma_without_keys_values(pairs: Seq<EnvPair>, names: Seq<Seq<char>>, k: Seq<char>)
    ensures
        names.contains(k) ==> values_named(without_keys(pairs, names), k) == Seq::<Seq<char>>::empty(),
        !names.contains(k) ==> values_named(without_keys(pairs, names), k) == values_named(pairs, k),
    decreases names.len(),
{
    if names.len() > 0 {
        lemma_without_keys_values(pairs, names.drop_last(), k);
        lemma_without_key_values(without_keys(pairs, names.drop_last()), names.last(), k);
        if names.contains(k) && names.last() != k {
            let j = choose|j: int| 0 <= j < names.len() && names[j] == k;
            assert(names.drop_last()[j] == k);
        }
        if !names.contains(k) {
            assert(!names.drop_last().contains(k)) by {
                if names.drop_last().contains(k) {
                    let j = choose|j: int| 0 <= j < names.drop_last().len() && names.drop_last()[j] == k;
                    assert(names[j] == k);
                }
            }
            assert(names[names.len() - 1] == names.last());
        }
    }
}

/// A variable removed from a command, and not set again, is absent from
/// the child's environment, inherited or not; a variable set last holds the
/// value it was last set to.
pub proof fn lemma_child_env_values(env_clear: bool, envs: Seq<EnvPair>, removed: Seq<Seq<char>>, inherited: Seq<EnvPair>, k: Seq<char>)
    ensures
        values_named(spec_child_env(env_clear, envs, removed, inherited), k) == (match last_override(envs, k) {
            Some(v) => seq![v],
            None => if env_clear || removed.contains(k) {
                Seq::<Seq<char>>::empty()
            } else {
                values_named(inherited, k)
            },
        }),
{
    let base = if env_clear { Seq::<EnvPair>::empty() } else { without_keys(inherited, removed) };
    lemma_last_override_wins(base, envs, k);
    lemma_without_keys_values(inherited, removed, k);
}

/// The text of one variable in a block, written out: name, `'='`, value,
/// null.
pub open spec fn written_entry(kv: EnvPair) -> Seq<u16> {
    utf16(kv.0) + seq![0x3Du16] + utf16(kv.1) + seq![0u16]
}

/// The total length of the entries of `pairs`.
pub open spec fn written_len(pairs: Seq<EnvPair>) -> nat
    decreases pairs.len(),
{
    if pairs.len() == 0 {
        0
    } else {
        written_len(pairs.drop_last()) + utf16(pairs.last().0).len() + utf16(pairs.last().1).len() + 2
    }
}

proof fn lemma_entries_are_written(pairs: Seq<EnvPair>)
    ensures
        env_entries(pairs) == pairs.map_values(|kv: EnvPair| written_entry(kv)).flatten_alt(),
        env_entries(pairs).len() == written_len(pairs),
    decreases pairs.len(),
{
    let f = |kv: EnvPair| written_entry(kv);
    if pairs.len() == 0 {
        assert(pairs.map_values(f) =~= Seq::<Seq<u16>>::empty());
    } else {
        lemma_entries_are_written(pairs.drop_last());
        let mapped = pairs.map_values(f);
        assert(mapped.drop_last() =~= pairs.drop_last().map_values(f));
        assert(mapped.last() == written_entry(pairs.last()));
        assert(env_entry(pairs.last()) =~= written_entry(pairs.last()));
    }
}

/// A block lists every variable of the child, in order and whatever its
/// value (an empty value included): the concatenation over all pairs of
/// name, `'='`, value and a null, then a final null; an empty environment
/// is two nulls.  So its length is the sum over the pairs of the name's and
/// the value's lengths plus two, plus one.
pub proof fn lemma_block_lists_every_variable(pairs: Seq<EnvPair>)
    ensures
        block_of(pairs) == (if pairs.len() == 0 {
            seq![0u16, 0u16]
        } else {
            pairs.map_values(|kv: EnvPair| utf16(kv.0) + seq![0x3Du16] + utf16(kv.1) + seq![0u16]).flatten_alt().push(0u16)
        }),
        block_of(pairs).len() == (if pairs.len() == 0 { 2 } else { written_len(pairs) + 1 }),
{
    lemma_entries_are_written(pairs);
    assert(pairs.map_values(|kv: EnvPair| written_entry(kv)) =~= pairs.map_values(|kv: EnvPair| utf16(kv.0) + seq![0x3Du16] + utf16(kv.1) + seq![0u16]));
}

} // verus!
