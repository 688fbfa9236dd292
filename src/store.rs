//! Operations on a stored list of records: load with migration, upsert and
//! delete by identifier, and activation of one provider.
use vstd::prelude::*;
use crate::model::{is_migration_of, Keyed, Provider, ProviderV1};

verus! {

/// Why an operation on the stores failed.
#[derive(Debug)]
pub enum ConfigError {
    /// A file could not be read, written or located.
    Io(String),
    /// The stored list parses in neither schema; holds the parser's message.
    CorruptStore(String),
    /// The settings document has no `env` object to merge into.
    InvalidSettingsDocument,
    /// No provider has the identifier to activate.
    NotFound,
}

/// `i` is the first position in `s` whose record has identifier `id`.
pub open spec fn is_first_with_key<T: Keyed>(s: Seq<T>, id: Seq<char>, i: int) -> bool {
    &&& 0 <= i < s.len()
    &&& s[i].key() == id
    &&& forall|j: int| 0 <= j < i ==> s[j].key() != id
}

/// Some record of `s` has identifier `id`.
pub open spec fn has_key<T: Keyed>(s: Seq<T>, id: Seq<char>) -> bool {
    exists|i: int| 0 <= i < s.len() && s[i].key() == id
}

/// The records of `s`, in order, without those whose identifier is `id`.
pub open spec fn without_key<T: Keyed>(s: Seq<T>, id: Seq<char>) -> Seq<T>
    decreases s.len(),
{
    if s.len() == 0 {
        Seq::empty()
    } else {
        let rest = without_key(s.skip(1), id);
        if s[0].key() == id {
            rest
        } else {
            seq![s[0]].add(rest)
        }
    }
}

/// No two records of `s` share an identifier.
pub open spec fn keys_unique<T: Keyed>(s: Seq<T>) -> bool {
    forall|i: int, j: int| 0 <= i < s.len() && 0 <= j < s.len() && i != j ==> s[i].key() != s[j].key()
}

/// `p` with its active flag set to `b`.
pub open spec fn with_active(p: Provider, b: bool) -> Provider {
    Provider { is_active: b, ..p }
}

/// The list after activating `id`: the records with that identifier are
/// active, every other one is not.
pub open spec fn activated(s: Seq<Provider>, id: Seq<char>) -> Seq<Provider> {
    s.map_values(|p: Provider| with_active(p, p.id@ == id))
}

/// The outcome of reading a stored provider list: `current` is the parse in
/// the current schema, `legacy` the parse in the older one.
pub open spec fn decoded(
    current: Result<Vec<Provider>, String>,
    legacy: Result<Vec<ProviderV1>, String>,
    r: Result<(Vec<Provider>, bool), ConfigError>,
) -> bool {
    match current {
        Ok(list) => r == Ok::<(Vec<Provider>, bool), ConfigError>((list, false)),
        Err(_) => match legacy {
            Ok(old) => match r {
                Ok((list, migrated)) => {
                    &&& migrated
                    &&& list.len() == old.len()
                    &&& forall|i: int| 0 <= i < old.len() ==> is_migration_of(#[trigger] list[i], old[i])
                },
                Err(_) => false,
            },
            Err(msg) => r == Err::<(Vec<Provider>, bool), ConfigError>(ConfigError::CorruptStore(msg)),
        },
    }
}

/// Each record of an older-schema list in the current schema, in order.
pub fn migrate_all(old: Vec<ProviderV1>) -> (r: Vec<Provider>)
    ensures
        r.len() == old.len(),
        forall|i: int| 0 <= i < old.len() ==> is_migration_of(#[trigger] r[i], old[i]),
{
    let ghost orig = old@;
    let mut rest = old;
    let mut out: Vec<Provider> = Vec::new();
    while rest.len() > 0
        invariant
            out.len() + rest.len() == orig.len(),
            rest@ == orig.skip(out.len() as int),
            forall|i: int| 0 <= i < out.len() ==> is_migration_of(#[trigger] out[i], orig[i]),
        decreases rest.len(),
    {
        let p = rest.remove(0);
        out.push(p.migrate());
    }
    out
}

/// Decides what a stored provider list holds, from its parse in the current
/// schema and its parse in the older one. A list that parses in the current
/// schema is returned as it is; otherwise an older-schema list is migrated and
/// flagged so that the caller writes it back; otherwise the store is corrupt.
pub fn decode_providers(
    current: Result<Vec<Provider>, String>,
    legacy: Result<Vec<ProviderV1>, String>,
) -> (r: Result<(Vec<Provider>, bool), ConfigError>)
    ensures
        decoded(current, legacy, r),
{
    match current {
        Ok(list) => Ok((list, false)),
        Err(_) => match legacy {
            Ok(old) => Ok((migrate_all(old), true)),
            Err(msg) => Err(ConfigError::CorruptStore(msg)),
        },
    }
}

/// Puts `item` in place of the first record with its identifier, or appends it
/// where there is none. Unique identifiers stay unique. Active flags are stored
/// as given: saving an active provider beside another active one leaves two
/// active, since only `activate` clears the others.
pub fn upsert_by_id<T: Keyed>(list: &mut Vec<T>, item: T)
    ensures
        keys_unique(old(list)@) ==> keys_unique(final(list)@),
        !has_key(old(list)@, item.key()) ==> final(list)@ == old(list)@.push(item),
        forall|i: int|
            is_first_with_key(old(list)@, item.key(), i) ==> final(list)@ == old(list)@.update(
                i,
                item,
            ),
{
    let n = list.len();
    let mut i: usize = 0;
    while i < n
        invariant
            n == list.len(),
            list@ == old(list)@,
            i <= n,
            forall|j: int| 0 <= j < i ==> list@[j].key() != item.key(),
        decreases n - i,
    {
        if list[i].id_ref().eq(item.id_ref()) {
            list.set(i, item);
            return;
        }
        i = i + 1;
    }
    list.push(item);
}

/// Every record left by `without_key` has the identifier of a record of `s`,
/// and unique identifiers stay unique.
proof fn lemma_without_key_keeps<T: Keyed>(s: Seq<T>, id: Seq<char>)
    ensures
        forall|j: int|
            0 <= j < without_key(s, id).len() ==> exists|i: int|
                0 <= i < s.len() && s[i].key() == (#[trigger] without_key(s, id)[j]).key(),
        keys_unique(s) ==> keys_unique(without_key(s, id)),
    decreases s.len(),
{
    if s.len() > 0 {
        let tail = s.skip(1);
        lemma_without_key_keeps(tail, id);
        let rest = without_key(tail, id);
        assert forall|j: int| 0 <= j < rest.len() implies exists|i: int|
            0 <= i < s.len() && s[i].key() == (#[trigger] rest[j]).key() by {
            let i = choose|i: int| 0 <= i < tail.len() && tail[i].key() == rest[j].key();
            assert(s[i + 1] == tail[i]);
        }
        if s[0].key() != id {
            let r = without_key(s, id);
            assert(r == seq![s[0]].add(rest));
            assert forall|j: int| 0 <= j < r.len() implies exists|i: int|
                0 <= i < s.len() && s[i].key() == (#[trigger] r[j]).key() by {
                if j > 0 {
                    assert(r[j] == rest[j - 1]);
                } else {
                    assert(s[0].key() == r[0].key());
                }
            }
            if keys_unique(s) {
                assert(keys_unique(tail));
                assert forall|a: int, b: int|
                    0 <= a < r.len() && 0 <= b < r.len() && a != b implies r[a].key() != r[b].key() by {
                    if a > 0 && b > 0 {
                        assert(r[a] == rest[a - 1] && r[b] == rest[b - 1]);
                    } else if a == 0 {
                        assert(r[b] == rest[b - 1]);
                        let i = choose|i: int| 0 <= i < tail.len() && tail[i].key() == rest[b - 1].key();
                        assert(s[i + 1] == tail[i]);
                    } else {
                        assert(r[a] == rest[a - 1]);
                        let i = choose|i: int| 0 <= i < tail.len() && tail[i].key() == rest[a - 1].key();
                        assert(s[i + 1] == tail[i]);
                    }
                }
            }
        } else {
            if keys_unique(s) {
                assert(keys_unique(tail));
            }
        }
    }
}

/// Removes every record whose identifier is `id`; the others keep their order.
/// Unique identifiers stay unique.
pub fn remove_by_id<T: Keyed>(list: &mut Vec<T>, id: &String)
    ensures
        final(list)@ == without_key(old(list)@, id@),
        keys_unique(old(list)@) ==> keys_unique(final(list)@),
{
    proof {
        lemma_without_key_keeps(old(list)@, id@);
    }
    let ghost orig = old(list)@;
    let mut rest: Vec<T> = Vec::new();
    std::mem::swap(list, &mut rest);
    let mut kept: Vec<T> = Vec::new();
    while rest.len() > 0
        invariant
            kept@.add(without_key(rest@, id@)) == without_key(orig, id@),
        decreases rest.len(),
    {
        let item = rest.remove(0);
        if !item.id_ref().eq(id) {
            kept.push(item);
        }
    }
    *list = kept;
}

/// Marks the provider with identifier `id` active and every other one
/// inactive, and returns the position of the first with that identifier.
/// Where none has it, the list stays as it was and `NotFound` comes back.
pub fn activate(providers: &mut Vec<Provider>, id: &String) -> (r: Result<usize, ConfigError>)
    ensures
        r is Err <==> !has_key(old(providers)@, id@),
        r is Err ==> r == Err::<usize, ConfigError>(ConfigError::NotFound) && final(providers)@
            == old(providers)@,
        keys_unique(old(providers)@) ==> keys_unique(final(providers)@),
        r is Ok ==> final(providers)@ == activated(old(providers)@, id@) && is_first_with_key(
            old(providers)@,
            id@,
            r->Ok_0 as int,
        ),
{
    let n = providers.len();
    let mut found: usize = 0;
    while found < n && !providers[found].id_ref().eq(id)
        invariant
            n == providers.len(),
            found <= n,
            forall|j: int| 0 <= j < found ==> providers@[j].key() != id@,
        decreases n - found,
    {
        found = found + 1;
    }
    if found == n {
        return Err(ConfigError::NotFound);
    }
    let ghost orig = providers@;
    let mut rest: Vec<Provider> = Vec::new();
    std::mem::swap(providers, &mut rest);
    let mut out: Vec<Provider> = Vec::new();
    while rest.len() > 0
        invariant
            out.len() + rest.len() == orig.len(),
            rest@ == orig.skip(out.len() as int),
            forall|i: int| 0 <= i < out.len() ==> #[trigger] out@[i] == with_active(orig[i], orig[i].id@ == id@),
        decreases rest.len(),
    {
        let mut p = rest.remove(0);
        p.is_active = p.id_ref().eq(id);
        out.push(p);
    }
    *providers = out;
    Ok(found)
}

} // verus!
