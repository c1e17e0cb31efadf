use vstd::prelude::*;

use crate::model::{
    db_opt_view, DataModel, DatabaseCommand, DatabaseResult, DatabaseValue, ValueModel,
};

verus! {

/// The store: a mapping from key to value, with unique keys.
pub struct DatabaseController {
    inner_space: Vec<(String, DatabaseValue)>,
    contents: Ghost<Map<Seq<char>, ValueModel>>,
}

impl View for DatabaseController {
    type V = Map<Seq<char>, ValueModel>;

    closed spec fn view(&self) -> Map<Seq<char>, ValueModel> {
        self.contents@
    }
}

/// What the store answers to `command` on `key` and `value`, given its
/// contents `m` before the command: the value handed back, and whether the
/// command is a write that lacks its value.
pub open spec fn command_answer(
    m: Map<Seq<char>, ValueModel>,
    command: DatabaseCommand,
    key: Seq<char>,
    value: Option<ValueModel>,
) -> (Option<ValueModel>, bool) {
    match command {
        DatabaseCommand::GET => (
            if m.contains_key(key) { Some(m[key]) } else { None },
            false,
        ),
        DatabaseCommand::SET | DatabaseCommand::UPDATE => (None, value is None),
        DatabaseCommand::DELETE => (
            if m.contains_key(key) { Some(m[key]) } else { None },
            false,
        ),
    }
}

/// The contents of the store after `command` on `key` and `value`.
pub open spec fn command_effect(
    m: Map<Seq<char>, ValueModel>,
    command: DatabaseCommand,
    key: Seq<char>,
    value: Option<ValueModel>,
) -> Map<Seq<char>, ValueModel> {
    match command {
        DatabaseCommand::GET => m,
        DatabaseCommand::SET | DatabaseCommand::UPDATE => match value {
            Some(v) => m.insert(key, v),
            None => m,
        },
        DatabaseCommand::DELETE => m.remove(key),
    }
}

/// The error text of a write that carries no value.
pub open spec fn missing_value_text() -> Seq<char> {
    "Not found value to create"@
}

fn missing_value_message() -> (r: String)
    ensures
        r@ == missing_value_text(),
{
    "Not found value to create".to_owned()
}

impl DatabaseController {
    /// Each entry stands for its key in the model, and each key of the model
    /// has exactly one entry.
    pub closed spec fn wf(&self) -> bool {
        &&& forall|i: int|
            0 <= i < self.inner_space@.len() ==> {
                &&& #[trigger] self.contents@.contains_key(self.inner_space@[i].0@)
                &&& self.contents@[self.inner_space@[i].0@] == self.inner_space@[i].1@
            }
        &&& forall|k: Seq<char>|
            #[trigger] self.contents@.contains_key(k) ==> exists|i: int|
                0 <= i < self.inner_space@.len() && #[trigger] self.inner_space@[i].0@ == k
        &&& forall|i: int, j: int|
            0 <= i < self.inner_space@.len() && 0 <= j < self.inner_space@.len() && i != j
                ==> #[trigger] self.inner_space@[i].0@ != #[trigger] self.inner_space@[j].0@
    }

    pub fn new() -> (r: Self)
        ensures
            r.wf(),
            r@ == Map::<Seq<char>, ValueModel>::empty(),
    {
        DatabaseController { inner_space: Vec::new(), contents: Ghost(Map::empty()) }
    }

    /// The position of the entry for `key`, if there is one.
    fn find(&self, key: &String) -> (r: Option<usize>)
        requires
            self.wf(),
        ensures
            match r {
                Some(i) => i < self.inner_space@.len() && self.inner_space@[i as int].0@ == key@,
                None => !self@.contains_key(key@),
            },
    {
        let mut i: usize = 0;
        while i < self.inner_space.len()
            invariant
                self.wf(),
                i <= self.inner_space@.len(),
                forall|j: int| 0 <= j < i ==> self.inner_space@[j].0@ != key@,
            decreases self.inner_space@.len() - i,
        {
            if self.inner_space[i].0 == *key {
                return Some(i);
            }
            i += 1;
        }
        None
    }

    /// The value stored under `key`, if any; the store is left as it was.
    pub fn get(&self, key: &String) -> (r: Option<DatabaseValue>)
        requires
            self.wf(),
        ensures
            db_opt_view(r) == (if self@.contains_key(key@) { Some(self@[key@]) } else { None }),
    {
        match self.find(key) {
            Some(i) => Some(self.inner_space[i].1.clone()),
            None => None,
        }
    }

    /// Stores `value` under `key`, whether or not the key was present.
    pub fn put(&mut self, key: String, value: DatabaseValue)
        requires
            old(self).wf(),
        ensures
            final(self).wf(),
            final(self)@ == old(self)@.insert(key@, value@),
    {
        let ghost k = key@;
        let ghost v = value@;
        match self.find(&key) {
            Some(i) => {
                self.inner_space.set(i, (key, value));
                self.contents = Ghost(self.contents@.insert(k, v));
                assert forall|j: int| 0 <= j < self.inner_space@.len() implies {
                    &&& #[trigger] self.contents@.contains_key(self.inner_space@[j].0@)
                    &&& self.contents@[self.inner_space@[j].0@] == self.inner_space@[j].1@
                } by {
                    if j != i {
                        assert(old(self).inner_space@[j].0@ != k);
                    }
                }
                assert forall|q: Seq<char>| #[trigger] self.contents@.contains_key(q) implies exists|j: int|
                    0 <= j < self.inner_space@.len() && #[trigger] self.inner_space@[j].0@ == q by {
                    if q == k {
                        assert(self.inner_space@[i as int].0@ == q);
                    } else {
                        assert(old(self).contents@.contains_key(q));
                        let j = choose|j: int|
                            0 <= j < old(self).inner_space@.len() && #[trigger] old(self).inner_space@[j].0@ == q;
                        assert(self.inner_space@[j].0@ == q);
                    }
                }
            },
            None => {
                self.inner_space.push((key, value));
                self.contents = Ghost(self.contents@.insert(k, v));
                let ghost n = old(self).inner_space@.len() as int;
                assert(self.inner_space@[n].0@ == k);
                assert forall|j: int| 0 <= j < n implies #[trigger] self.inner_space@[j].0@ != k by {
                    assert(old(self).contents@.contains_key(old(self).inner_space@[j].0@));
                }
                assert forall|q: Seq<char>| #[trigger] self.contents@.contains_key(q) implies exists|j: int|
                    0 <= j < self.inner_space@.len() && #[trigger] self.inner_space@[j].0@ == q by {
                    if q == k {
                        assert(self.inner_space@[n].0@ == q);
                    } else {
                        assert(old(self).contents@.contains_key(q));
                        let j = choose|j: int|
                            0 <= j < old(self).inner_space@.len() && #[trigger] old(self).inner_space@[j].0@ == q;
                        assert(self.inner_space@[j].0@ == q);
                    }
                }
            },
        }
    }

    /// Removes the entry for `key` and hands back its value, if there was one.
    pub fn delete(&mut self, key: &String) -> (r: Option<DatabaseValue>)
        requires
            old(self).wf(),
        ensures
            final(self).wf(),
            final(self)@ == old(self)@.remove(key@),
            db_opt_view(r) == (if old(self)@.contains_key(key@) {
                Some(old(self)@[key@])
            } else {
                None
            }),
    {
        match self.find(key) {
            Some(i) => {
                let ghost old_entries = self.inner_space@;
                let entry = self.inner_space.remove(i);
                self.contents = Ghost(self.contents@.remove(key@));
                assert forall|j: int| 0 <= j < self.inner_space@.len() implies {
                    &&& #[trigger] self.contents@.contains_key(self.inner_space@[j].0@)
                    &&& self.contents@[self.inner_space@[j].0@] == self.inner_space@[j].1@
                } by {
                    let oj = if j < i { j } else { j + 1 };
                    assert(self.inner_space@[j] == old_entries[oj]);
                    assert(old_entries[i as int].0@ == key@);
                    assert(old_entries[oj].0@ != old_entries[i as int].0@);
                    assert(old(self).contents@.contains_key(old_entries[oj].0@));
                }
                assert forall|q: Seq<char>| #[trigger] self.contents@.contains_key(q) implies exists|j: int|
                    0 <= j < self.inner_space@.len() && #[trigger] self.inner_space@[j].0@ == q by {
                    assert(old(self).contents@.contains_key(q));
                    let oj = choose|oj: int|
                        0 <= oj < old_entries.len() && #[trigger] old_entries[oj].0@ == q;
                    assert(oj != i);
                    let j = if oj < i { oj } else { oj - 1 };
                    assert(self.inner_space@[j] == old_entries[oj]);
                }
                assert forall|a: int, b: int|
                    0 <= a < self.inner_space@.len() && 0 <= b < self.inner_space@.len() && a != b
                    implies #[trigger] self.inner_space@[a].0@ != #[trigger] self.inner_space@[b].0@ by {
                    let oa = if a < i { a } else { a + 1 };
                    let ob = if b < i { b } else { b + 1 };
                    assert(self.inner_space@[a] == old_entries[oa]);
                    assert(self.inner_space@[b] == old_entries[ob]);
                }
                Some(entry.1)
            },
            None => {
                assert(self.contents@.remove(key@) =~= self.contents@);
                None
            },
        }
    }

    /// Carries out one command on the store.
    pub fn handle_command(&mut self, command: DatabaseCommand, data_model: DataModel) -> (r:
        DatabaseResult)
        requires
            old(self).wf(),
        ensures
            final(self).wf(),
            final(self)@ == command_effect(
                old(self)@,
                command,
                data_model.key_view(),
                data_model.value_view(),
            ),
            db_opt_view(r.value) == command_answer(
                old(self)@,
                command,
                data_model.key_view(),
                data_model.value_view(),
            ).0,
            command_answer(old(self)@, command, data_model.key_view(), data_model.value_view()).1
                ==> (r.err matches Some(e) && e@ == missing_value_text()),
            !command_answer(old(self)@, command, data_model.key_view(), data_model.value_view()).1
                ==> r.err is None,
    {
        let key = data_model.get_key();
        match command {
            DatabaseCommand::GET => DatabaseResult { value: self.get(&key), err: None },
            DatabaseCommand::SET | DatabaseCommand::UPDATE => {
                if let Some(value) = data_model.get_value() {
                    self.put(key, value);
                    DatabaseResult { value: None, err: None }
                } else {
                    DatabaseResult { value: None, err: Some(missing_value_message()) }
                }
            },
            DatabaseCommand::DELETE => {
                let returned_value = self.delete(&key);
                DatabaseResult { value: returned_value, err: None }
            },
        }
    }
}

} // verus!
