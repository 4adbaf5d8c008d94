//! A categorical scale: a discrete key-to-value lookup table with a
//! fallback for unknown keys, not an interpolated function.

use vstd::prelude::*;
use vstd::string::StringExecFns;

verus! {

/// How many pairs zipping `domain` and `range` produces: the length of the
/// shorter of the two.
pub open spec fn pair_count(domain: Seq<String>, range: Seq<String>) -> int {
    if domain.len() <= range.len() {
        domain.len() as int
    } else {
        range.len() as int
    }
}

/// The value paired with `key` in `table`, searching later entries first so
/// that among duplicate keys the last pairing wins, or `None` when no entry
/// carries the key.
pub open spec fn lookup(table: Seq<(Seq<char>, Seq<char>)>, key: Seq<char>) -> Option<Seq<char>>
    decreases table.len(),
{
    if table.len() == 0 {
        None
    } else if table.last().0 == key {
        Some(table.last().1)
    } else {
        lookup(table.drop_last(), key)
    }
}

/// What one lookup through a scale returns: the value paired with `key`, or
/// `unknown` when no entry carries the key.
pub open spec fn lookup_or(
    table: Seq<(Seq<char>, Seq<char>)>,
    unknown: Seq<char>,
    key: Seq<char>,
) -> Seq<char> {
    match lookup(table, key) {
        Some(v) => v,
        None => unknown,
    }
}

/// A discrete mapping from domain keys to range values.
///
/// The lookup table is derived once, by [`OrdinalScaleBuilder::build`],
/// from the positional pairing of `domain` and `range`. Editing the public
/// `domain` or `range` fields afterwards does not change what `call`
/// returns — rebuild the scale instead. The `unknown` fallback, in
/// contrast, is read at call time, so reassigning it does take effect.
#[derive(Debug)]
pub struct OrdinalScale {
    pub domain: Vec<String>,
    pub range: Vec<String>,
    pub unknown: String,
    /// The derived key/value pairs, in domain order; treat as read-only.
    pub entries: Vec<(String, String)>,
}

impl OrdinalScale {
    /// The derived lookup table, as the sequence of key/value pairs it was
    /// built from.
    pub open spec fn table(&self) -> Seq<(Seq<char>, Seq<char>)> {
        Seq::new(self.entries@.len(), |i: int| (self.entries@[i].0@, self.entries@[i].1@))
    }

    /// The derived table pairs `domain` and `range` positionally, stopping
    /// at the shorter of the two.
    pub open spec fn wf(&self) -> bool {
        &&& self.table().len() == pair_count(self.domain@, self.range@)
        &&& forall|i: int|
            0 <= i < self.table().len() ==> #[trigger] self.table()[i] == (
                self.domain@[i]@,
                self.range@[i]@,
            )
    }

    /// The value the derived table pairs with `key`, or `None` when the
    /// table does not carry the key.
    pub fn get(&self, key: &String) -> (r: Option<String>)
        ensures
            match lookup(self.table(), key@) {
                Some(v) => r is Some && r->0@ == v,
                None => r is None,
            },
    {
        let mut j = self.entries.len();
        proof {
            assert(self.table().subrange(0, j as int) =~= self.table());
        }
        while j > 0
            invariant
                j <= self.entries.len(),
                lookup(self.table(), key@) == lookup(self.table().subrange(0, j as int), key@),
            decreases j,
        {
            j = j - 1;
            if self.entries[j].0 == *key {
                proof {
                    assert(self.table().subrange(0, j as int + 1).last() == self.table()[j as int]);
                }
                return Some(self.entries[j].1.clone());
            }
            proof {
                assert(self.table().subrange(0, j as int + 1).drop_last() =~= self.table().subrange(
                    0,
                    j as int,
                ));
            }
        }
        None
    }

    /// Maps each input key through the derived table, substituting the
    /// `unknown` fallback for keys the table does not carry. The output has
    /// one value per input, in input order.
    pub fn call(&self, data: &[String]) -> (out: Vec<String>)
        ensures
            out@.len() == data@.len(),
            forall|i: int|
                0 <= i < data@.len() ==> #[trigger] out@[i]@ == lookup_or(
                    self.table(),
                    self.unknown@,
                    data@[i]@,
                ),
    {
        let mut out: Vec<String> = Vec::new();
        let mut i: usize = 0;
        while i < data.len()
            invariant
                i <= data@.len(),
                out@.len() == i,
                forall|k: int|
                    0 <= k < i ==> #[trigger] out@[k]@ == lookup_or(
                        self.table(),
                        self.unknown@,
                        data@[k]@,
                    ),
            decreases data@.len() - i,
        {
            let v = match self.get(&data[i]) {
                Some(v) => v,
                None => self.unknown.clone(),
            };
            out.push(v);
            i = i + 1;
        }
        out
    }
}

/// Assembles an [`OrdinalScale`] from its parts; `domain` and `range` are
/// required, `unknown` defaults to the empty string.
#[derive(Debug)]
pub struct OrdinalScaleBuilder {
    pub domain: Option<Vec<String>>,
    pub range: Option<Vec<String>>,
    pub unknown: Option<String>,
}

impl Default for OrdinalScaleBuilder {
    /// A builder with nothing supplied yet.
    fn default() -> (b: OrdinalScaleBuilder)
        ensures
            b.domain is None,
            b.range is None,
            b.unknown is None,
    {
        OrdinalScaleBuilder { domain: None, range: None, unknown: None }
    }
}

impl OrdinalScaleBuilder {
    /// Supplies the domain keys.
    pub fn domain(self, value: Vec<String>) -> (r: Self)
        ensures
            r.domain == Some(value),
            r.range == self.range,
            r.unknown == self.unknown,
    {
        Self { domain: Some(value), ..self }
    }

    /// Supplies the range values.
    pub fn range(self, value: Vec<String>) -> (r: Self)
        ensures
            r.range == Some(value),
            r.domain == self.domain,
            r.unknown == self.unknown,
    {
        Self { range: Some(value), ..self }
    }

    /// Supplies the fallback returned for keys outside the domain.
    pub fn unknown(self, value: String) -> (r: Self)
        ensures
            r.unknown == Some(value),
            r.domain == self.domain,
            r.range == self.range,
    {
        Self { unknown: Some(value), ..self }
    }

    /// Builds the scale, deriving its lookup table by pairing `domain` and
    /// `range` positionally. Fails exactly when `domain` or `range` was not
    /// supplied.
    pub fn build(&self) -> (r: Result<OrdinalScale, String>)
        ensures
            r is Ok <==> self.domain is Some && self.range is Some,
            match r {
                Ok(s) => {
                    &&& s.wf()
                    &&& s.domain@ == self.domain->0@
                    &&& s.range@ == self.range->0@
                    &&& (self.unknown is Some ==> s.unknown == self.unknown->0)
                    &&& (self.unknown is None ==> s.unknown@ == Seq::<char>::empty())
                },
                Err(e) => {
                    &&& (self.domain is None ==> e@ == "domain must be initialized"@)
                    &&& (self.domain is Some ==> e@ == "range must be initialized"@)
                },
            },
    {
        let domain = match &self.domain {
            Some(d) => clone_string_vec(d),
            None => {
                return Err(String::from_str("domain must be initialized"));
            },
        };
        let range = match &self.range {
            Some(v) => clone_string_vec(v),
            None => {
                return Err(String::from_str("range must be initialized"));
            },
        };
        let unknown = match &self.unknown {
            Some(u) => u.clone(),
            None => String::new(),
        };
        let n = if domain.len() <= range.len() {
            domain.len()
        } else {
            range.len()
        };
        let mut entries: Vec<(String, String)> = Vec::new();
        let mut i: usize = 0;
        while i < n
            invariant
                i <= n,
                n == pair_count(domain@, range@),
                entries@.len() == i,
                forall|k: int|
                    0 <= k < i ==> (#[trigger] entries@[k]).0@ == domain@[k]@ && entries@[k].1@
                        == range@[k]@,
            decreases n - i,
        {
            entries.push((domain[i].clone(), range[i].clone()));
            i = i + 1;
        }
        let s = OrdinalScale { domain, range, unknown, entries };
        proof {
            assert forall|k: int| 0 <= k < s.table().len() implies #[trigger] s.table()[k] == (
                s.domain@[k]@,
                s.range@[k]@,
            ) by {
                assert(s.entries@[k].0@ == s.domain@[k]@);
            }
        }
        Ok(s)
    }
}

/// A clone of a vector of strings, equal to it element by element.
fn clone_string_vec(v: &Vec<String>) -> (r: Vec<String>)
    ensures
        r@ == v@,
{
    let r = v.clone();
    proof {
        assert forall|i: int| 0 <= i < v@.len() implies r@[i] == v@[i] by {
            assert(cloned::<String>(v[i], r[i]));
        }
        assert(v@ =~= r@);
    }
    r
}

/// A key that no entry of the table carries looks up to `None`, so `call`
/// falls back to the scale's `unknown` value for it.
pub proof fn lemma_lookup_miss(table: Seq<(Seq<char>, Seq<char>)>, key: Seq<char>)
    requires
        forall|i: int| 0 <= i < table.len() ==> (#[trigger] table[i]).0 != key,
    ensures
        lookup(table, key) is None,
    decreases table.len(),
{
    if table.len() > 0 {
        lemma_lookup_miss(table.drop_last(), key);
    }
}

/// An entry whose key recurs in no later entry is what lookup finds: among
/// duplicate keys, the last pairing wins.
pub proof fn lemma_lookup_hit(table: Seq<(Seq<char>, Seq<char>)>, i: int)
    requires
        0 <= i < table.len(),
        forall|j: int| i < j < table.len() ==> (#[trigger] table[j]).0 != table[i].0,
    ensures
        lookup(table, table[i].0) == Some(table[i].1),
    decreases table.len(),
{
    if i < table.len() - 1 {
        lemma_lookup_hit(table.drop_last(), i);
    }
}

/// Ordinal lookup, stated once for every well-formed scale: a domain key
/// whose last occurrence is at position `i` of the derived table maps to
/// the range value at the same position.
pub proof fn lemma_domain_maps_to_range(s: OrdinalScale, i: int)
    requires
        s.wf(),
        0 <= i < s.table().len(),
        forall|j: int| i < j < s.table().len() ==> s.domain@[j]@ != s.domain@[i]@,
    ensures
        lookup(s.table(), s.domain@[i]@) == Some(s.range@[i]@),
{
    assert forall|j: int| i < j < s.table().len() implies (#[trigger] s.table()[j]).0
        != s.table()[i].0 by {
        assert(s.table()[j] == (s.domain@[j]@, s.range@[j]@));
    }
    lemma_lookup_hit(s.table(), i);
}

} // verus!
