//! Technical and regulatory standards: definitions keyed by a byte
//! identifier, and compliance checks of operation data against a standard's
//! parameters.

use vstd::prelude::*;

use crate::bytes;
use crate::store;
use crate::FIXED_TIMESTAMP;

verus! {

/// Configuration constants fixed when the module is assembled into a runtime.
#[derive(PartialEq, Eq, Structural, Clone, Copy, Debug)]
pub struct Config {
    /// Maximum allowed length for a standard definition (description and
    /// parameters together).
    pub max_standard_length: u32,
}

/// A standard definition.
pub struct Standard {
    /// Unique identifier for the standard.
    pub id: Vec<u8>,
    /// Detailed description of the standard.
    pub description: Vec<u8>,
    /// Associated rules or parameters for the standard.
    pub parameters: Vec<u8>,
}

/// Events recorded for the runtime's subscribers.
pub enum Event {
    /// A new standard was defined: (standard ID).
    StandardDefined(Vec<u8>),
    /// An existing standard was updated: (standard ID).
    StandardUpdated(Vec<u8>),
    /// A compliance check was performed: (standard ID, outcome).
    ComplianceChecked(Vec<u8>, bool),
}

#[derive(PartialEq, Eq, Structural, Clone, Copy, Debug)]
pub enum Error {
    /// The standard definition exceeds the maximum allowed length.
    StandardTooLong,
    /// A standard with this ID already exists.
    StandardAlreadyExists,
    /// The standard was not found.
    StandardNotFound,
    /// Compliance check failed.
    ComplianceCheckFailed,
}

/// The stored standards as key-value pairs, keyed by identifier contents.
pub open spec fn pairs(s: Seq<Standard>) -> Seq<(Seq<u8>, Standard)> {
    s.map_values(|st: Standard| (st.id@, st))
}

/// Each stored pair carries the standard's identifier contents as its key.
pub proof fn lemma_pairs_index(s: Seq<Standard>)
    ensures
        pairs(s).len() == s.len(),
        forall|j: int|
            0 <= j < s.len() ==> (#[trigger] pairs(s)[j]).0 == s[j].id@ && pairs(s)[j].1 == s[j],
{
}

/// A standard identifier is in the map exactly when some stored standard
/// carries it.
pub proof fn lemma_contains_standard(s: Seq<Standard>, id: Seq<u8>)
    ensures
        store::assoc_map(pairs(s)).contains_key(id) <==> exists|i: int|
            0 <= i < s.len() && (#[trigger] s[i]).id@ == id,
{
    store::lemma_assoc_contains(pairs(s), id);
    lemma_pairs_index(s);
    if exists|i: int| 0 <= i < s.len() && (#[trigger] s[i]).id@ == id {
        let i = choose|i: int| 0 <= i < s.len() && (#[trigger] s[i]).id@ == id;
        assert(pairs(s)[i].0 == id);
    }
    if store::assoc_map(pairs(s)).contains_key(id) {
        let i = choose|i: int| 0 <= i < pairs(s).len() && (#[trigger] pairs(s)[i]).0 == id;
        assert(s[i].id@ == id);
    }
}

/// One more log entry was appended: (timestamp, standard ID, operation
/// details, outcome), with everything earlier untouched.
pub open spec fn history_step(
    old_h: Seq<(u64, Vec<u8>, Vec<u8>, bool)>,
    new_h: Seq<(u64, Vec<u8>, Vec<u8>, bool)>,
    id: Seq<u8>,
    details: Seq<u8>,
    outcome: bool,
) -> bool {
    &&& new_h.len() == old_h.len() + 1
    &&& (forall|i: int| 0 <= i < old_h.len() ==> #[trigger] new_h[i] == old_h[i])
    &&& new_h.last().0 == FIXED_TIMESTAMP
    &&& new_h.last().1@ == id
    &&& new_h.last().2@ == details
    &&& new_h.last().3 == outcome
}

/// The module's state: the stored standard definitions, the append-only
/// history of compliance checks, and the emitted events.
pub struct Pallet {
    pub config: Config,
    pub standards: Vec<Standard>,
    pub compliance_history: Vec<(u64, Vec<u8>, Vec<u8>, bool)>,
    pub events: Vec<Event>,
}

impl Pallet {
    /// The standards a module holds, as a map from identifier contents to
    /// the definition.
    pub open spec fn standards_map(self) -> Map<Seq<u8>, Standard> {
        store::assoc_map(pairs(self.standards@))
    }

    /// Each standard identifier is held at most once.
    pub open spec fn wf(self) -> bool {
        store::unique_keys(pairs(self.standards@))
    }

    /// A fresh module with everything at its storage default.
    pub fn new(config: Config) -> (p: Pallet)
        ensures
            p.wf(),
            p.config == config,
            p.standards_map() == Map::<Seq<u8>, Standard>::empty(),
            p.compliance_history@ == Seq::<(u64, Vec<u8>, Vec<u8>, bool)>::empty(),
            p.events@ == Seq::<Event>::empty(),
    {
        let p = Pallet {
            config,
            standards: Vec::new(),
            compliance_history: Vec::new(),
            events: Vec::new(),
        };
        proof {
            assert(pairs(p.standards@) =~= Seq::<(Seq<u8>, Standard)>::empty());
        }
        p
    }

    /// The position of the standard holding `id`, if any.
    fn index_of(&self, id: &Vec<u8>) -> (r: Option<usize>)
        ensures
            match r {
                Some(i) => i < self.standards@.len() && self.standards@[i as int].id@ == id@,
                None => forall|j: int|
                    0 <= j < self.standards@.len() ==> (#[trigger] self.standards@[j]).id@ != id@,
            },
    {
        let mut i: usize = 0;
        while i < self.standards.len()
            invariant
                i <= self.standards@.len(),
                forall|j: int| 0 <= j < i ==> (#[trigger] self.standards@[j]).id@ != id@,
            decreases self.standards@.len() - i,
        {
            if bytes::eq_bytes(&self.standards[i].id, id) {
                return Some(i);
            }
            i = i + 1;
        }
        None
    }

    /// Whether a standard is stored under `id`.
    pub fn contains_standard(&self, id: &Vec<u8>) -> (r: bool)
        ensures
            r == self.standards_map().contains_key(id@),
    {
        let r = self.index_of(id);
        proof {
            lemma_contains_standard(self.standards@, id@);
        }
        r.is_some()
    }

    /// The standard stored under `id`, if any.
    pub fn get_standard(&self, id: &Vec<u8>) -> (r: Option<&Standard>)
        requires
            self.wf(),
        ensures
            match r {
                Some(st) => self.standards_map().contains_key(id@)
                    && *st == self.standards_map()[id@],
                None => !self.standards_map().contains_key(id@),
            },
    {
        proof {
            lemma_contains_standard(self.standards@, id@);
        }
        match self.index_of(id) {
            Some(i) => {
                proof {
                    lemma_pairs_index(self.standards@);
                    store::lemma_assoc_get(pairs(self.standards@), i as int);
                }
                Some(&self.standards[i])
            },
            None => None,
        }
    }

    /// Defines a new standard under `id`.
    ///
    /// Fails leaving the state unchanged when the description and parameters
    /// together exceed the configured length bound, or when a standard with
    /// this identifier already exists; on success the definition is stored
    /// and a `StandardDefined` event recorded.
    pub fn define_standard(
        &mut self,
        id: Vec<u8>,
        description: Vec<u8>,
        parameters: Vec<u8>,
    ) -> (r: Result<(), Error>)
        requires
            old(self).wf(),
        ensures
            final(self).wf(),
            final(self).config == old(self).config,
            description@.len() + parameters@.len() > old(self).config.max_standard_length ==> {
                &&& r == Err::<(), Error>(Error::StandardTooLong)
                &&& *final(self) == *old(self)
            },
            description@.len() + parameters@.len() <= old(self).config.max_standard_length && old(
                self,
            ).standards_map().contains_key(id@) ==> {
                &&& r == Err::<(), Error>(Error::StandardAlreadyExists)
                &&& *final(self) == *old(self)
            },
            description@.len() + parameters@.len() <= old(self).config.max_standard_length && !old(
                self,
            ).standards_map().contains_key(id@) ==> {
                &&& r == Ok::<(), Error>(())
                &&& final(self).standards_map() == old(self).standards_map().insert(
                    id@,
                    Standard { id, description, parameters },
                )
                &&& final(self).compliance_history == old(self).compliance_history
                &&& final(self).events@.len() == old(self).events@.len() + 1
                &&& (forall|i: int|
                    0 <= i < old(self).events@.len()
                        ==> #[trigger] final(self).events@[i] == old(self).events@[i])
                &&& final(self).events@.last() matches Event::StandardDefined(e) && e@ == id@
            },
    {
        let max = self.config.max_standard_length as usize;
        if description.len() > max || parameters.len() > max - description.len() {
            return Err(Error::StandardTooLong);
        }
        proof {
            lemma_contains_standard(self.standards@, id@);
        }
        if self.index_of(&id).is_some() {
            return Err(Error::StandardAlreadyExists);
        }
        let emitted = bytes::clone_bytes(&id);
        let ghost v0 = self.standards@;
        let ghost s0 = pairs(v0);
        self.standards.push(Standard { id, description, parameters });
        proof {
            lemma_pairs_index(v0);
            lemma_pairs_index(self.standards@);
            assert(pairs(self.standards@).drop_last() =~= s0);
            assert(pairs(self.standards@).last().0 == id@);
            assert(store::unique_keys(pairs(self.standards@))) by {
                assert(forall|j: int|
                    0 <= j < v0.len() ==> (#[trigger] pairs(self.standards@)[j]) == s0[j]);
            }
        }
        self.events.push(Event::StandardDefined(emitted));
        Ok(())
    }

    /// Replaces the description and parameters of an existing standard.
    ///
    /// Fails leaving the state unchanged when the new description and
    /// parameters together exceed the configured length bound, or when no
    /// standard is stored under `id`; on success the stored definition keeps
    /// its identifier and a `StandardUpdated` event is recorded.
    pub fn update_standard(
        &mut self,
        id: Vec<u8>,
        new_description: Vec<u8>,
        new_parameters: Vec<u8>,
    ) -> (r: Result<(), Error>)
        requires
            old(self).wf(),
        ensures
            final(self).wf(),
            final(self).config == old(self).config,
            new_description@.len() + new_parameters@.len() > old(
                self,
            ).config.max_standard_length ==> {
                &&& r == Err::<(), Error>(Error::StandardTooLong)
                &&& *final(self) == *old(self)
            },
            new_description@.len() + new_parameters@.len() <= old(self).config.max_standard_length
                && !old(self).standards_map().contains_key(id@) ==> {
                &&& r == Err::<(), Error>(Error::StandardNotFound)
                &&& *final(self) == *old(self)
            },
            new_description@.len() + new_parameters@.len() <= old(self).config.max_standard_length
                && old(self).standards_map().contains_key(id@) ==> {
                &&& r == Ok::<(), Error>(())
                &&& final(self).standards_map() == old(self).standards_map().insert(
                    id@,
                    final(self).standards_map()[id@],
                )
                &&& final(self).standards_map()[id@].id@ == id@
                &&& final(self).standards_map()[id@].description == new_description
                &&& final(self).standards_map()[id@].parameters == new_parameters
                &&& final(self).compliance_history == old(self).compliance_history
                &&& final(self).events@.len() == old(self).events@.len() + 1
                &&& (forall|i: int|
                    0 <= i < old(self).events@.len()
                        ==> #[trigger] final(self).events@[i] == old(self).events@[i])
                &&& final(self).events@.last() matches Event::StandardUpdated(e) && e@ == id@
            },
    {
        let max = self.config.max_standard_length as usize;
        if new_description.len() > max || new_parameters.len() > max - new_description.len() {
            return Err(Error::StandardTooLong);
        }
        proof {
            lemma_contains_standard(self.standards@, id@);
        }
        let i = match self.index_of(&id) {
            Some(i) => i,
            None => {
                return Err(Error::StandardNotFound);
            },
        };
        let ghost v0 = self.standards@;
        let ghost s0 = pairs(v0);
        proof {
            lemma_pairs_index(v0);
            store::lemma_assoc_remove(s0, i as int);
        }
        let mut standard = self.standards.remove(i);
        standard.description = new_description;
        standard.parameters = new_parameters;
        let ghost v1 = self.standards@;
        let ghost s1 = pairs(v1);
        proof {
            lemma_pairs_index(v1);
            assert(s1 =~= s0.remove(i as int));
            assert(store::unique_keys(s1)) by {
                assert(forall|j: int|
                    0 <= j < s1.len() ==> #[trigger] s1[j] == if j < i { s0[j] } else {
                        s0[j + 1]
                    });
            }
            assert(forall|j: int| 0 <= j < v1.len() ==> (#[trigger] s1[j]).0 != id@) by {
                assert(forall|j: int|
                    0 <= j < s1.len() ==> #[trigger] s1[j] == if j < i { s0[j] } else {
                        s0[j + 1]
                    });
            }
        }
        self.standards.push(standard);
        proof {
            lemma_pairs_index(self.standards@);
            assert(pairs(self.standards@).drop_last() =~= s1);
            assert(pairs(self.standards@).last().0 == id@);
            assert(store::unique_keys(pairs(self.standards@))) by {
                assert(forall|j: int|
                    0 <= j < v1.len() ==> (#[trigger] pairs(self.standards@)[j]) == s1[j]);
            }
            let st = self.standards@.last();
            assert(pairs(self.standards@).last().1 == st);
            assert(self.standards_map() == store::assoc_map(s1).insert(id@, st));
            assert(store::assoc_map(s1) == store::assoc_map(s0).remove(id@));
            assert(self.standards_map() =~= store::assoc_map(s0).insert(id@, st));
            assert(self.standards_map()[id@] == st);
        }
        self.events.push(Event::StandardUpdated(id));
        Ok(())
    }

    /// Checks operation data for compliance with the standard stored under
    /// `standard_id`: the operation complies exactly when the standard's
    /// parameters occur contiguously in the data. The outcome is logged with
    /// the data and recorded as a `ComplianceChecked` event.
    ///
    /// Fails leaving the state unchanged when no standard is stored under
    /// `standard_id`.
    pub fn verify_compliance(&mut self, standard_id: Vec<u8>, operation_data: Vec<u8>) -> (r:
        Result<bool, Error>)
        requires
            old(self).wf(),
        ensures
            final(self).wf(),
            final(self).config == old(self).config,
            final(self).standards@ == old(self).standards@,
            !old(self).standards_map().contains_key(standard_id@) ==> {
                &&& r == Err::<bool, Error>(Error::StandardNotFound)
                &&& *final(self) == *old(self)
            },
            old(self).standards_map().contains_key(standard_id@) ==> {
                let complies = bytes::contains_seq(
                    operation_data@,
                    old(self).standards_map()[standard_id@].parameters@,
                );
                &&& r == Ok::<bool, Error>(complies)
                &&& history_step(
                    old(self).compliance_history@,
                    final(self).compliance_history@,
                    standard_id@,
                    operation_data@,
                    complies,
                )
                &&& final(self).events@.len() == old(self).events@.len() + 1
                &&& (forall|i: int|
                    0 <= i < old(self).events@.len()
                        ==> #[trigger] final(self).events@[i] == old(self).events@[i])
                &&& final(self).events@.last() matches Event::ComplianceChecked(e, c)
                    && e@ == standard_id@ && c == complies
            },
    {
        proof {
            lemma_contains_standard(self.standards@, standard_id@);
        }
        let i = match self.index_of(&standard_id) {
            Some(i) => i,
            None => {
                return Err(Error::StandardNotFound);
            },
        };
        proof {
            lemma_pairs_index(self.standards@);
            store::lemma_assoc_get(pairs(self.standards@), i as int);
        }
        let complies = bytes::contains_bytes(&operation_data, &self.standards[i].parameters);
        let logged_id = bytes::clone_bytes(&standard_id);
        self.compliance_history.push((FIXED_TIMESTAMP, logged_id, operation_data, complies));
        self.events.push(Event::ComplianceChecked(standard_id, complies));
        Ok(complies)
    }
}

} // verus!
