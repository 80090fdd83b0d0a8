//! The registry of database engines.
//!
//! An engine is registered under a name, with the factory that makes its
//! databases, and is found again under that name whatever the case of its
//! letters.

use vstd::prelude::*;
use crate::errors::ErrorCode;
use crate::errors::ErrorKind;
use crate::text::eq_ignore_case;
use crate::text::lemma_upper_idempotent;
use crate::text::upper;

verus! {

/// One registered engine.
pub struct EngineEntry<F> {
    pub name: String,
    pub factory: F,
}

/// The engines registered so far. `F` is the type of a factory.
pub struct DatabaseEngineRegistry<F> {
    pub engines: Vec<EngineEntry<F>>,
}

/// The failure to register under a name that is taken.
pub open spec fn duplicate_message(name: Seq<char>) -> Seq<char> {
    "Database engine provider "@ + name + " already exists"@
}

impl<F> View for DatabaseEngineRegistry<F> {
    type V = Map<Seq<char>, F>;

    /// The factories by the upper-case form of the name of their engine.
    open spec fn view(&self) -> Map<Seq<char>, F> {
        Map::new(
            |key: Seq<char>| self.position(key) is Some,
            |key: Seq<char>| self.engines@[self.position(key)->0].factory,
        )
    }
}

impl<F> Default for DatabaseEngineRegistry<F> {
    /// A registry without engines.
    fn default() -> (r: Self)
        ensures
            r.wf(),
            r@ == Map::<Seq<char>, F>::empty(),
    {
        DatabaseEngineRegistry::new()
    }
}

impl<F> DatabaseEngineRegistry<F> {
    /// The place of the engine whose name has the upper-case form `key`.
    pub open spec fn position(&self, key: Seq<char>) -> Option<int> {
        if exists|i: int| 0 <= i < self.engines@.len() && upper((#[trigger] self.engines@[i]).name@) == key {
            Some(
                choose|i: int|
                    0 <= i < self.engines@.len() && upper((#[trigger] self.engines@[i]).name@) == key,
            )
        } else {
            None
        }
    }

    /// No two engines have names that differ in case only.
    pub open spec fn wf(&self) -> bool {
        forall|i: int, j: int|
            0 <= i < j < self.engines@.len() ==> upper((#[trigger] self.engines@[i]).name@) != upper(
                (#[trigger] self.engines@[j]).name@,
            )
    }

    /// In a well-formed registry an engine is found at its own place.
    pub proof fn lemma_position(&self, i: int)
        requires
            self.wf(),
            0 <= i < self.engines@.len(),
        ensures
            self.position(upper(self.engines@[i].name@)) == Some(i),
            self@.dom().contains(upper(self.engines@[i].name@)),
            self@[upper(self.engines@[i].name@)] == self.engines@[i].factory,
    {
        let key = upper(self.engines@[i].name@);
        let j = self.position(key)->0;
        assert(0 <= j < self.engines@.len() && upper(self.engines@[j].name@) == key);
        if j < i {
            assert(upper(self.engines@[j].name@) != upper(self.engines@[i].name@));
        } else if i < j {
            assert(upper(self.engines@[i].name@) != upper(self.engines@[j].name@));
        }
    }

    /// A registry without engines.
    pub fn new() -> (r: DatabaseEngineRegistry<F>)
        ensures
            r.wf(),
            r@ == Map::<Seq<char>, F>::empty(),
    {
        let r = DatabaseEngineRegistry { engines: Vec::new() };
        assert(r@ =~= Map::<Seq<char>, F>::empty());
        r
    }

    /// The place of the engine of the given name, whatever its case.
    fn find(&self, name: &str) -> (r: Option<usize>)
        ensures
            r is Some ==> r->0 < self.engines@.len() && upper(self.engines@[r->0 as int].name@)
                == upper(name@),
            r is None ==> forall|i: int|
                0 <= i < self.engines@.len() ==> upper((#[trigger] self.engines@[i]).name@) != upper(
                    name@,
                ),
    {
        let mut i: usize = 0;
        while i < self.engines.len()
            invariant
                i <= self.engines.len(),
                forall|j: int|
                    0 <= j < i ==> upper((#[trigger] self.engines@[j]).name@) != upper(name@),
            decreases self.engines.len() - i,
        {
            if eq_ignore_case(self.engines[i].name.as_str(), name) {
                return Some(i);
            }
            i = i + 1;
        }
        None
    }

    /// Registers an engine under `name`. Refused with `AlreadyExists`, and
    /// the registry left as it is, where an engine is registered under that
    /// name in any case of its letters.
    pub fn register(&mut self, name: &str, factory: F) -> (r: Result<(), ErrorCode>)
        requires
            old(self).wf(),
        ensures
            final(self).wf(),
            old(self)@.dom().contains(upper(name@)) ==> r is Err && r->Err_0.kind
                == ErrorKind::AlreadyExists && r->Err_0.message@ == duplicate_message(name@)
                && final(self).engines == old(self).engines,
            !old(self)@.dom().contains(upper(name@)) ==> r is Ok && final(self)@ == old(
                self,
            )@.insert(upper(name@), factory),
    {
        let found = self.find(name);
        match found {
            Some(i) => {
                proof {
                    self.lemma_position(i as int);
                }
                let mut message = String::from_str("Database engine provider ");
                message.append(name);
                message.append(" already exists");
                Err(ErrorCode::create(ErrorKind::AlreadyExists, message))
            },
            None => {
                proof {
                    if self@.dom().contains(upper(name@)) {
                        let j = self.position(upper(name@))->0;
                        assert(upper(self.engines@[j].name@) == upper(name@));
                    }
                }
                self.engines.push(EngineEntry { name: String::from_str(name), factory });
                proof {
                    let n = old(self).engines@.len() as int;
                    assert forall|i: int, j: int| 0 <= i < j < self.engines@.len() implies upper(
                        (#[trigger] self.engines@[i]).name@,
                    ) != upper((#[trigger] self.engines@[j]).name@) by {
                        assert(self.engines@[i] == old(self).engines@[i]);
                        if j < n {
                            assert(self.engines@[j] == old(self).engines@[j]);
                        }
                    }
                    let target = old(self)@.insert(upper(name@), factory);
                    assert forall|key: Seq<char>| #[trigger]
                        self@.dom().contains(key) == target.dom().contains(key) by {
                        if key == upper(name@) {
                            self.lemma_position(n);
                        } else if old(self)@.dom().contains(key) {
                            let j = old(self).position(key)->0;
                            assert(upper(old(self).engines@[j].name@) == key);
                            assert(self.engines@[j] == old(self).engines@[j]);
                            self.lemma_position(j);
                        } else if self@.dom().contains(key) {
                            let j = self.position(key)->0;
                            assert(upper(self.engines@[j].name@) == key);
                            assert(j < n);
                            assert(self.engines@[j] == old(self).engines@[j]);
                            old(self).lemma_position(j);
                        }
                    }
                    assert forall|key: Seq<char>| #[trigger]
                        self@.dom().contains(key) implies self@[key] == target[key] by {
                        if key == upper(name@) {
                            self.lemma_position(n);
                        } else {
                            let j = self.position(key)->0;
                            assert(upper(self.engines@[j].name@) == key);
                            assert(j < n);
                            assert(self.engines@[j] == old(self).engines@[j]);
                            old(self).lemma_position(j);
                            self.lemma_position(j);
                        }
                    }
                    assert(self@ =~= old(self)@.insert(upper(name@), factory));
                }
                Ok(())
            },
        }
    }

    /// The factory of the engine of the given name, whatever its case.
    pub fn get_database_factory(&self, name: &str) -> (r: Option<&F>)
        requires
            self.wf(),
        ensures
            self@.dom().contains(upper(name@)) ==> r is Some && *r->0 == self@[upper(name@)],
            !self@.dom().contains(upper(name@)) ==> r is None,
    {
        match self.find(name) {
            Some(i) => {
                proof {
                    self.lemma_position(i as int);
                }
                Some(&self.engines[i].factory)
            },
            None => {
                proof {
                    if self@.dom().contains(upper(name@)) {
                        let j = self.position(upper(name@))->0;
                        assert(upper(self.engines@[j].name@) == upper(name@));
                    }
                }
                None
            },
        }
    }

    /// Whether an engine is registered under the name, whatever its case.
    pub fn contains(&self, name: &str) -> (b: bool)
        requires
            self.wf(),
        ensures
            b == self@.dom().contains(upper(name@)),
    {
        self.get_database_factory(name).is_some()
    }
}

/// A lookup does not depend on the case of the name: two names that differ
/// in case only find the same engine, and the upper-case form of a name
/// finds what the name finds.
pub proof fn lemma_lookup_ignores_case<F>(
    registry: &DatabaseEngineRegistry<F>,
    a: Seq<char>,
    b: Seq<char>,
)
    requires
        upper(a) == upper(b),
    ensures
        registry@.dom().contains(upper(a)) == registry@.dom().contains(upper(b)),
        registry@.dom().contains(upper(a)) ==> registry@[upper(a)] == registry@[upper(b)],
        upper(upper(a)) == upper(a),
{
    lemma_upper_idempotent(a);
}

/// Once an engine is registered under a name, that name is taken in every
/// case of its letters: a second registration under it is refused.
pub proof fn lemma_registered_name_is_taken<F>(
    before: Map<Seq<char>, F>,
    name: Seq<char>,
    factory: F,
    again: Seq<char>,
)
    requires
        upper(again) == upper(name),
    ensures
        before.insert(upper(name), factory).dom().contains(upper(again)),
{
}

} // verus!
