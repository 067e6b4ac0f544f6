//! The symbol table: the mapping from tag names to positions in the
//! program stack, built by the linker's first pass and consumed by its
//! second.
//!
//! Its view is the mathematical map from names to positions; inserting
//! an existing name replaces its position (last wins).

use vstd::prelude::*;
use vstd::string::*;

verus! {

/// A mapping from tag names (unique) to their positions in the final
/// memory image.
#[derive(Clone, Debug)]
pub struct SymbolTable {
    names: Vec<String>,
    positions: Vec<i32>,
}

impl View for SymbolTable {
    type V = Map<Seq<char>, i32>;

    closed spec fn view(&self) -> Map<Seq<char>, i32> {
        table_map(self.names@, self.positions@)
    }
}

/// The map a list of name / position pairs denotes, later entries
/// overriding earlier ones.
pub open spec fn table_map(names: Seq<String>, positions: Seq<i32>) -> Map<Seq<char>, i32>
    decreases names.len(),
{
    if names.len() == 0 || positions.len() == 0 {
        Map::empty()
    } else {
        table_map(names.drop_last(), positions.drop_last()).insert(
            names.last()@,
            positions.last(),
        )
    }
}

/// An invariant of the table: the two columns are as long as each
/// other and no name occurs twice.
pub open spec fn table_wf(names: Seq<String>, positions: Seq<i32>) -> bool {
    &&& names.len() == positions.len()
    &&& forall|i: int, j: int| 0 <= i < j < names.len() ==> names[i]@ != names[j]@
}

/// In a well-formed table, the map holds exactly the names of the
/// entries, each at its recorded position.
proof fn lemma_table_map_entries(names: Seq<String>, positions: Seq<i32>)
    requires
        table_wf(names, positions),
    ensures
        forall|k: Seq<char>|
            table_map(names, positions).contains_key(k) <==> exists|i: int|
                0 <= i < names.len() && names[i]@ == k,
        forall|i: int|
            0 <= i < names.len() ==> table_map(names, positions).contains_key(names[i]@)
                && table_map(names, positions)[#[trigger] names[i]@] == positions[i],
    decreases names.len(),
{
    if names.len() > 0 {
        let dln = names.drop_last();
        let dlp = positions.drop_last();
        lemma_table_map_entries(dln, dlp);
        let m = table_map(names, positions);
        assert forall|k: Seq<char>| m.contains_key(k) implies exists|i: int|
            0 <= i < names.len() && names[i]@ == k by {
            if k == names.last()@ {
                assert(names[names.len() - 1]@ == k);
            } else {
                assert(m == table_map(dln, dlp).insert(names.last()@, positions.last()));
                assert(table_map(dln, dlp).contains_key(k));
                assert(exists|i: int| 0 <= i < dln.len() && dln[i]@ == k);
                let i = choose|i: int| 0 <= i < dln.len() && dln[i]@ == k;
                assert(dln[i] == names[i]);
                assert(names[i]@ == k);
            }
        }
        assert forall|k: Seq<char>| (exists|i: int| 0 <= i < names.len() && names[i]@ == k)
            implies m.contains_key(k) by {
            let i = choose|i: int| 0 <= i < names.len() && names[i]@ == k;
            if i < names.len() - 1 {
                assert(dln[i]@ == k);
                assert(table_map(dln, dlp).contains_key(k));
            }
        }
        assert forall|i: int| 0 <= i < names.len() implies m.contains_key(names[i]@) && m[#[trigger] names[i]@]
            == positions[i] by {
            if i < names.len() - 1 {
                assert(dln[i]@ == names[i]@);
                assert(names[i]@ != names.last()@);
            }
        }
    }
}

/// In a well-formed table, the map has one key per entry.
proof fn lemma_table_map_len(names: Seq<String>, positions: Seq<i32>)
    requires
        table_wf(names, positions),
    ensures
        table_map(names, positions).dom().finite(),
        table_map(names, positions).dom().len() == names.len(),
    decreases names.len(),
{
    if names.len() > 0 {
        lemma_table_map_len(names.drop_last(), positions.drop_last());
        lemma_table_map_entries(names.drop_last(), positions.drop_last());
        assert(!table_map(names.drop_last(), positions.drop_last()).contains_key(names.last()@));
    }
}

impl SymbolTable {
    /// The table's internal invariant.
    pub closed spec fn wf(&self) -> bool {
        table_wf(self.names@, self.positions@)
    }

    /// Creates an empty symbol table.
    pub fn new() -> (r: SymbolTable)
        ensures
            r@ == Map::<Seq<char>, i32>::empty(),
            r.wf(),
    {
        let r = SymbolTable { names: Vec::new(), positions: Vec::new() };
        proof {
            assert(r@ =~= Map::<Seq<char>, i32>::empty());
        }
        r
    }

    /// Binds a name to a position; a name bound again keeps the later
    /// position.
    pub fn insert(&mut self, name: String, position: i32)
        requires
            old(self).wf(),
        ensures
            final(self).wf(),
            final(self)@ == old(self)@.insert(name@, position),
    {
        proof {
            lemma_table_map_entries(self.names@, self.positions@);
        }
        let mut i: usize = 0;
        while i < self.names.len()
            invariant
                self.wf(),
                self.names@ == old(self).names@,
                self.positions@ == old(self).positions@,
                self.names@.len() == self.positions@.len(),
                0 <= i <= self.names@.len(),
                forall|j: int| 0 <= j < i ==> self.names@[j]@ != name@,
            decreases self.names@.len() - i,
        {
            if crate::text::str_eq(self.names[i].as_str(), name.as_str()) {
                proof {
                    lemma_table_map_entries(self.names@, self.positions@);
                }
                let ghost old_names = self.names@;
                let ghost old_positions = self.positions@;
                self.positions[i] = position;
                self.names[i] = name;
                proof {
                    lemma_updated_entry(old_names, old_positions, i as int, self.names@[i as int], position);
                    assert(self.names@ =~= old_names.update(i as int, self.names@[i as int]));
                    assert(self.positions@ =~= old_positions.update(i as int, position));
                }
                return ;
            }
            i = i + 1;
        }
        proof {
            lemma_table_map_entries(self.names@, self.positions@);
        }
        self.names.push(name);
        self.positions.push(position);
        proof {
            assert(self.names@.drop_last() =~= old(self).names@);
            assert(self.positions@.drop_last() =~= old(self).positions@);
        }
    }

    /// Looks a name up, returning its position when the name is bound.
    pub fn get(&self, name: &str) -> (r: Option<i32>)
        requires
            self.wf(),
        ensures
            match r {
                Some(v) => self@.contains_key(name@) && v == self@[name@],
                None => !self@.contains_key(name@),
            },
    {
        proof {
            lemma_table_map_entries(self.names@, self.positions@);
        }
        let mut i: usize = 0;
        while i < self.names.len()
            invariant
                self.wf(),
                self.names@.len() == self.positions@.len(),
                0 <= i <= self.names@.len(),
                forall|j: int| 0 <= j < i ==> self.names@[j]@ != name@,
            decreases self.names@.len() - i,
        {
            if crate::text::str_eq(self.names[i].as_str(), name) {
                proof {
                    lemma_table_map_entries(self.names@, self.positions@);
                }
                return Some(self.positions[i]);
            }
            i = i + 1;
        }
        proof {
            lemma_table_map_entries(self.names@, self.positions@);
        }
        None
    }

    /// The number of names bound.
    pub fn len(&self) -> (r: usize)
        requires
            self.wf(),
        ensures
            r == self@.dom().len(),
    {
        proof {
            lemma_table_map_len(self.names@, self.positions@);
        }
        self.names.len()
    }
}

/// Replacing one entry's position (keeping a name with the same view)
/// turns the denoted map into the map with that name re-inserted.
proof fn lemma_updated_entry(
    names: Seq<String>,
    positions: Seq<i32>,
    i: int,
    name: String,
    position: i32,
)
    requires
        table_wf(names, positions),
        0 <= i < names.len(),
        name@ == names[i]@,
    ensures
        table_wf(names.update(i, name), positions.update(i, position)),
        table_map(names.update(i, name), positions.update(i, position)) == table_map(
            names,
            positions,
        ).insert(name@, position),
    decreases names.len(),
{
    let n2 = names.update(i, name);
    let p2 = positions.update(i, position);
    assert(forall|j: int| 0 <= j < names.len() ==> n2[j]@ == names[j]@);
    if i == names.len() - 1 {
        assert(n2.drop_last() =~= names.drop_last());
        assert(p2.drop_last() =~= positions.drop_last());
        assert(table_map(n2, p2) =~= table_map(names, positions).insert(name@, position));
    } else {
        lemma_updated_entry(names.drop_last(), positions.drop_last(), i, name, position);
        assert(n2.drop_last() =~= names.drop_last().update(i, name));
        assert(p2.drop_last() =~= positions.drop_last().update(i, position));
        lemma_table_map_entries(names, positions);
        assert(n2.last()@ != name@);
        assert(table_map(n2, p2) =~= table_map(names, positions).insert(name@, position));
    }
}

} // verus!
