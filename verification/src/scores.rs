use vstd::prelude::*;
use vstd::hash_map::StringHashMap;
use crate::error::ContractError;
use crate::state::Addr;

verus! {

/// The record that a write of `score` under `token` leaves for an address
/// whose record was `existing`: a fresh record with that one entry where
/// there was none, else the old record with that entry put in and every
/// other entry kept.
pub open spec fn merged(
    existing: Option<Map<Seq<char>, i32>>,
    token: Seq<char>,
    score: i32,
) -> Map<Seq<char>, i32> {
    match existing {
        None => Map::<Seq<char>, i32>::empty().insert(token, score),
        Some(entries) => entries.insert(token, score),
    }
}

/// What a read of `token` gives on an address whose record is `record`.
/// A missing record and a missing token are different failures, and neither
/// reads as zero.
pub open spec fn looked_up(record: Option<Map<Seq<char>, i32>>, token: Seq<char>) -> Result<
    i32,
    ContractError,
> {
    match record {
        None => Err(ContractError::NotFound),
        Some(entries) => if entries.contains_key(token) {
            Ok(entries[token])
        } else {
            Err(ContractError::InvalidKey)
        },
    }
}

/// The record of `address` in `table`, if it has one.
pub open spec fn record_of(
    table: Map<Seq<char>, Map<Seq<char>, i32>>,
    address: Seq<char>,
) -> Option<Map<Seq<char>, i32>> {
    if table.contains_key(address) {
        Some(table[address])
    } else {
        None
    }
}

/// The table after a write of `score` for `address` under `token`: the
/// record of `address` is merged, every other address keeps its own.
pub open spec fn table_after_set(
    table: Map<Seq<char>, Map<Seq<char>, i32>>,
    address: Seq<char>,
    token: Seq<char>,
    score: i32,
) -> Map<Seq<char>, Map<Seq<char>, i32>> {
    table.insert(address, merged(record_of(table, address), token, score))
}

/// Whether `list` names the tokens of `record`: each of them once, and
/// nothing else.
pub open spec fn lists_tokens(list: Seq<String>, record: Map<Seq<char>, i32>) -> bool {
    &&& forall|i: int| 0 <= i < list.len() ==> record.contains_key(#[trigger] list[i]@)
    &&& forall|token: Seq<char>| #[trigger]
        record.contains_key(token) ==> exists|i: int|
            0 <= i < list.len() && #[trigger] list[i]@ == token
    &&& forall|i: int, j: int|
        0 <= i < j < list.len() ==> #[trigger] list[i]@ != #[trigger] list[j]@
}

/// The scores of one address, one for each token that was written for it.
pub struct ScoreRecord {
    entries: StringHashMap<i32>,
    tokens: Vec<String>,
}

impl View for ScoreRecord {
    type V = Map<Seq<char>, i32>;

    closed spec fn view(&self) -> Map<Seq<char>, i32> {
        self.entries@
    }
}

impl ScoreRecord {
    /// The list of tokens goes with the entries.
    #[verifier::type_invariant]
    closed spec fn well_formed(&self) -> bool {
        lists_tokens(self.tokens@, self.entries@)
    }

    /// A record without a score: what a write starts from, and never what
    /// the table holds.
    fn blank() -> (record: ScoreRecord)
        ensures
            record@ == Map::<Seq<char>, i32>::empty(),
    {
        ScoreRecord { entries: StringHashMap::new(), tokens: Vec::new() }
    }

    /// The record that a first write makes: `score` under `token`, alone.
    pub fn single(token: String, score: i32) -> (record: ScoreRecord)
        ensures
            record@ == merged(None, token@, score),
    {
        let mut record = ScoreRecord::blank();
        record.put(token, score);
        record
    }

    /// Puts `score` under `token`, over what stood there, and touches no
    /// other token.
    pub fn put(&mut self, token: String, score: i32)
        ensures
            final(self)@ == merged(Some(old(self)@), token@, score),
    {
        let mut taken = ScoreRecord::blank();
        std::mem::swap(self, &mut taken);
        proof {
            use_type_invariant(&taken);
        }
        let ScoreRecord { mut entries, mut tokens } = taken;
        if !entries.contains_key(token.as_str()) {
            tokens.push(token.clone());
            assert(tokens@[tokens@.len() - 1]@ == token@);
        }
        entries.insert(token, score);
        assert forall|other: Seq<char>| #[trigger] entries@.contains_key(other) implies exists|
            i: int,
        | 0 <= i < tokens@.len() && #[trigger] tokens@[i]@ == other by {
            if old(self)@.contains_key(other) {
                let i = choose|i: int|
                    0 <= i < old(self).tokens@.len() && #[trigger] old(self).tokens@[i]@ == other;
                assert(tokens@[i]@ == other);
            } else {
                assert(tokens@[tokens@.len() - 1]@ == other);
            }
        }
        *self = ScoreRecord { entries, tokens };
    }

    /// The score under `token`, if one was written.
    pub fn get(&self, token: &str) -> (score: Option<i32>)
        ensures
            score == if self@.contains_key(token@) {
                Some(self@[token@])
            } else {
                None::<i32>
            },
    {
        match self.entries.get(token) {
            Some(found) => Some(*found),
            None => None,
        }
    }

    /// The tokens that have a score, each of them once.
    pub fn tokens(&self) -> (list: &Vec<String>)
        ensures
            lists_tokens(list@, self@),
    {
        proof {
            use_type_invariant(self);
        }
        &self.tokens
    }

    /// How many tokens have a score.
    pub fn len(&self) -> (count: usize)
        ensures
            count == self@.len(),
    {
        self.entries.len()
    }
}

/// The record to keep for an address after a write of `score` under `token`:
/// made anew where the address had none, merged into `existing` where it
/// had one.
pub fn merge_score(existing: Option<ScoreRecord>, token: String, score: i32) -> (record: ScoreRecord)
    ensures
        record@ == merged(
            match existing {
                Some(held) => Some(held@),
                None => None,
            },
            token@,
            score,
        ),
{
    match existing {
        None => ScoreRecord::single(token, score),
        Some(mut held) => {
            held.put(token, score);
            held
        },
    }
}

/// The keyed table: a score record for each address that was written to,
/// and for no other.
pub struct ScoreTable {
    slots: StringHashMap<usize>,
    records: Vec<ScoreRecord>,
}

impl View for ScoreTable {
    type V = Map<Seq<char>, Map<Seq<char>, i32>>;

    closed spec fn view(&self) -> Map<Seq<char>, Map<Seq<char>, i32>> {
        Map::new(
            |address: Seq<char>| self.slots@.contains_key(address),
            |address: Seq<char>| self.records@[self.slots@[address] as int]@,
        )
    }
}

impl ScoreTable {
    /// Every address has a slot that holds a record, and no two share one.
    #[verifier::type_invariant]
    closed spec fn well_formed(&self) -> bool {
        &&& forall|address: Seq<char>| #[trigger]
            self.slots@.contains_key(address) ==> self.slots@[address] < self.records@.len()
        &&& forall|first: Seq<char>, second: Seq<char>|
            self.slots@.contains_key(first) && self.slots@.contains_key(second) && first != second
                ==> #[trigger] self.slots@[first] != #[trigger] self.slots@[second]
    }

    /// A table without records.
    pub fn new() -> (table: ScoreTable)
        ensures
            table@ == Map::<Seq<char>, Map<Seq<char>, i32>>::empty(),
    {
        let table = ScoreTable { slots: StringHashMap::new(), records: Vec::new() };
        assert(table@ =~= Map::<Seq<char>, Map<Seq<char>, i32>>::empty());
        table
    }

    /// Whether `address` has a record.
    pub fn has(&self, address: &Addr) -> (present: bool)
        ensures
            present == self@.contains_key(address@),
    {
        self.slots.contains_key(address.as_str())
    }

    /// The record of `address`, if it has one.
    pub fn record(&self, address: &Addr) -> (found: Option<&ScoreRecord>)
        ensures
            match found {
                Some(record) => record_of(self@, address@) == Some(record@),
                None => record_of(self@, address@) is None,
            },
    {
        proof {
            use_type_invariant(self);
        }
        match self.slots.get(address.as_str()) {
            None => None,
            Some(slot) => Some(&self.records[*slot]),
        }
    }

    /// Writes `score` for `address` under `token`. A first write to an
    /// address makes its record; a later one merges into it.
    pub fn set_score(&mut self, address: &Addr, token: String, score: i32)
        ensures
            final(self)@ == table_after_set(old(self)@, address@, token@, score),
    {
        let mut taken = ScoreTable::new();
        std::mem::swap(self, &mut taken);
        proof {
            use_type_invariant(&taken);
        }
        let ScoreTable { mut slots, mut records } = taken;
        let found = match slots.get(address.as_str()) {
            Some(slot) => Some(*slot),
            None => None,
        };
        match found {
            Some(slot) => {
                records[slot].put(token, score);
            },
            None => {
                let slot: usize = records.len();
                records.push(merge_score(None, token, score));
                slots.insert(address.clone().into_string(), slot);
            },
        }
        *self = ScoreTable { slots, records };
        assert(self@ =~= table_after_set(old(self)@, address@, token@, score));
    }

    /// Reads the score of `address` under `token`.
    pub fn get_score(&self, address: &Addr, token: &str) -> (score: Result<i32, ContractError>)
        ensures
            score == looked_up(record_of(self@, address@), token@),
    {
        proof {
            use_type_invariant(self);
        }
        match self.slots.get(address.as_str()) {
            None => Err(ContractError::NotFound),
            Some(slot) => match self.records[*slot].get(token) {
                Some(score) => Ok(score),
                None => Err(ContractError::InvalidKey),
            },
        }
    }
}

} // verus!
