//! The compiled-function registry: a fixed table from code hash to native routine.
//!
//! The routine type `R` is whatever the embedding program uses to refer to a
//! natively compiled contract. The registry never looks inside it.

use crate::primitives::CodeHash;
use vstd::prelude::*;

verus! {

/// One registry entry: the native routine that stands in for the code with this hash.
#[derive(Debug)]
pub struct CompiledFunction<R> {
    pub hash: CodeHash,
    pub routine: R,
}

/// Whether no two entries of a table carry the same hash.
pub open spec fn distinct_hashes<R>(table: Seq<CompiledFunction<R>>) -> bool {
    forall|i: int, j: int|
        0 <= i < table.len() && 0 <= j < table.len() && #[trigger] table[i].hash@ == #[trigger] table[j].hash@
            ==> i == j
}

/// Whether some entry of the table carries the hash.
pub open spec fn lists<R>(table: Seq<CompiledFunction<R>>, hash: Seq<u8>) -> bool {
    exists|i: int| 0 <= i < table.len() && #[trigger] table[i].hash@ == hash
}

/// The position of an entry that carries the hash, where there is one.
pub open spec fn position<R>(table: Seq<CompiledFunction<R>>, hash: Seq<u8>) -> int {
    choose|i: int| 0 <= i < table.len() && #[trigger] table[i].hash@ == hash
}

/// The mapping that a table stands for.
pub open spec fn table_map<R>(table: Seq<CompiledFunction<R>>) -> Map<Seq<u8>, R> {
    Map::new(|hash: Seq<u8>| lists(table, hash), |hash: Seq<u8>| table[position(table, hash)].routine)
}

/// The context that every call frame can see: the registry of native routines.
///
/// It is filled while the program starts and only read afterwards. At most one
/// entry exists for any hash.
pub struct ExternalContext<R> {
    table: Vec<CompiledFunction<R>>,
}

impl<R> ExternalContext<R> {
    #[verifier::type_invariant]
    spec fn one_entry_per_hash(self) -> bool {
        distinct_hashes(self.table@)
    }
}

impl<R: Copy> ExternalContext<R> {
    /// The entries in the order in which they were registered.
    pub closed spec fn entries(&self) -> Seq<CompiledFunction<R>> {
        self.table@
    }

    /// The registry as a mapping from code hash to routine.
    pub open spec fn view(&self) -> Map<Seq<u8>, R> {
        table_map(self.entries())
    }

    /// A registry without entries: every contract runs in the interpreter.
    pub fn new() -> (r: Self)
        ensures
            r.entries().len() == 0,
            r@ =~= Map::empty(),
    {
        let r = ExternalContext { table: Vec::new() };
        r
    }

    /// The registry with `routine` registered for `hash`, in place of whatever
    /// was registered for it before: an entry with this hash is overwritten
    /// where it stands, and a new hash is added at the end.
    pub fn with_function(self, hash: CodeHash, routine: R) -> (r: Self)
        ensures
            r@ == self@.insert(hash@, routine),
            distinct_hashes(r.entries()),
            r.entries() == (if lists(self.entries(), hash@) {
                self.entries().update(position(self.entries(), hash@), (CompiledFunction { hash, routine }))
            } else {
                self.entries().push((CompiledFunction { hash, routine }))
            }),
    {
        proof {
            use_type_invariant(&self);
        }
        let ghost before = self.table@;
        let mut table = self.table;
        let entry = CompiledFunction { hash, routine };
        let mut i: usize = 0;
        while i < table.len()
            invariant
                i <= table.len(),
                table@ == before,
                before == self.entries(),
                distinct_hashes(before),
                entry.hash == hash,
                entry.routine == routine,
                forall|j: int| 0 <= j < i ==> table@[j].hash@ != hash@,
            decreases table.len() - i,
        {
            if table[i].hash.same(&hash) {
                table.set(i, entry);
                proof {
                    lemma_replace(before, i as int, entry);
                }
                return ExternalContext { table };
            }
            i += 1;
        }
        table.push(entry);
        proof {
            lemma_append(before, entry);
        }
        ExternalContext { table }
    }

    /// The native routine registered for the code hash, if there is one.
    pub fn get_function(&self, bytecode_hash: CodeHash) -> (r: Option<R>)
        ensures
            r == (if self@.contains_key(bytecode_hash@) {
                Some(self@[bytecode_hash@])
            } else {
                None
            }),
    {
        proof {
            use_type_invariant(self);
        }
        let mut i: usize = 0;
        while i < self.table.len()
            invariant
                i <= self.table.len(),
                distinct_hashes(self.table@),
                forall|j: int| 0 <= j < i ==> self.table@[j].hash@ != bytecode_hash@,
            decreases self.table.len() - i,
        {
            if self.table[i].hash.same(&bytecode_hash) {
                proof {
                    lemma_found(self.table@, i as int);
                }
                return Some(self.table[i].routine);
            }
            i += 1;
        }
        None
    }

    /// The number of entries.
    pub fn len(&self) -> (r: usize)
        ensures
            r == self.entries().len(),
    {
        self.table.len()
    }
}

/// In a table without repeated hashes, the entry at `i` is the one its hash maps to.
pub proof fn lemma_found<R>(table: Seq<CompiledFunction<R>>, i: int)
    requires
        distinct_hashes(table),
        0 <= i < table.len(),
    ensures
        table_map(table).contains_key(table[i].hash@),
        table_map(table)[table[i].hash@] == table[i].routine,
{
}

/// Replacing the entry that carries a hash updates the mapping at that hash and nowhere else.
pub proof fn lemma_replace<R>(table: Seq<CompiledFunction<R>>, i: int, entry: CompiledFunction<R>)
    requires
        distinct_hashes(table),
        0 <= i < table.len(),
        table[i].hash@ == entry.hash@,
    ensures
        distinct_hashes(table.update(i, entry)),
        table_map(table.update(i, entry)) == table_map(table).insert(entry.hash@, entry.routine),
{
    let after = table.update(i, entry);
    assert forall|hash: Seq<u8>| lists(after, hash) == lists(table, hash) by {
        if lists(table, hash) {
            assert(after[position(table, hash)].hash@ == hash);
        }
    }
    assert forall|hash: Seq<u8>| #[trigger] lists(after, hash) implies table_map(after)[hash] == table_map(
        table,
    ).insert(entry.hash@, entry.routine)[hash] by {
        let k = position(after, hash);
        lemma_found(after, k);
        lemma_found(table, k);
    }
}

/// Appending an entry with a hash that the table lacks adds that hash to the mapping.
pub proof fn lemma_append<R>(table: Seq<CompiledFunction<R>>, entry: CompiledFunction<R>)
    requires
        distinct_hashes(table),
        !lists(table, entry.hash@),
    ensures
        distinct_hashes(table.push(entry)),
        table_map(table.push(entry)) == table_map(table).insert(entry.hash@, entry.routine),
{
    let after = table.push(entry);
    assert forall|hash: Seq<u8>| lists(after, hash) == (lists(table, hash) || hash == entry.hash@) by {
        if lists(table, hash) {
            assert(after[position(table, hash)].hash@ == hash);
        }
        if hash == entry.hash@ {
            assert(after[table.len() as int].hash@ == hash);
        }
    }
    assert forall|hash: Seq<u8>| #[trigger] lists(after, hash) implies table_map(after)[hash] == table_map(
        table,
    ).insert(entry.hash@, entry.routine)[hash] by {
        let k = position(after, hash);
        lemma_found(after, k);
        if k < table.len() {
            lemma_found(table, k);
        }
    }
}

} // verus!
