use vstd::prelude::*;
use crate::paths::text_of;
use crate::text::{trim, trimmed};

verus! {

/// Assignments of values to environment variables. No name is assigned twice: an
/// assignment to a name that has a value replaces that value.
#[derive(Debug, PartialEq, Eq)]
pub struct Environment {
    assignments: Vec<(String, String)>,
}

/// The mapping from names to values that a sequence of assignments amounts to.
pub open spec fn mapping_of(assignments: Seq<(String, String)>) -> Map<Seq<char>, Seq<char>>
    decreases assignments.len(),
{
    if assignments.len() == 0 {
        Map::empty()
    } else {
        mapping_of(assignments.drop_last()).insert(
            assignments.last().0@,
            assignments.last().1@,
        )
    }
}

/// Whether no name occurs twice in `assignments`.
pub open spec fn distinct_names(assignments: Seq<(String, String)>) -> bool {
    forall|i: int, j: int|
        0 <= i < j < assignments.len() ==> (#[trigger] assignments[i]).0@ != (
        #[trigger] assignments[j]).0@
}

proof fn lemma_without(assignments: Seq<(String, String)>, i: int, value: Seq<char>)
    requires
        0 <= i < assignments.len(),
    ensures
        mapping_of(assignments.remove(i)).insert(assignments[i].0@, value) == mapping_of(
            assignments,
        ).insert(assignments[i].0@, value),
    decreases assignments.len(),
{
    let name = assignments[i].0@;
    let front = assignments.drop_last();
    if i == assignments.len() - 1 {
        assert(assignments.remove(i) =~= front);
        assert(mapping_of(front).insert(name, assignments.last().1@).insert(name, value)
            =~= mapping_of(front).insert(name, value));
    } else {
        let last = assignments.last();
        assert(assignments.remove(i).drop_last() =~= front.remove(i));
        assert(assignments.remove(i).last() == last);
        assert(front[i] == assignments[i]);
        lemma_without(front, i, value);
        assert(mapping_of(front.remove(i)).insert(last.0@, last.1@).insert(name, value)
            =~= mapping_of(front.remove(i)).insert(name, value).insert(last.0@, last.1@).insert(
            name,
            value,
        ));
        assert(mapping_of(front).insert(last.0@, last.1@).insert(name, value) =~= mapping_of(
            front,
        ).insert(name, value).insert(last.0@, last.1@).insert(name, value));
    }
}

impl View for Environment {
    type V = Map<Seq<char>, Seq<char>>;

    closed spec fn view(&self) -> Map<Seq<char>, Seq<char>> {
        mapping_of(self.assignments@)
    }
}

impl Environment {
    #[verifier::type_invariant]
    closed spec fn no_name_twice(self) -> bool {
        distinct_names(self.assignments@)
    }

    /// An environment that assigns nothing.
    pub fn new() -> (r: Environment)
        ensures
            r@ == Map::<Seq<char>, Seq<char>>::empty(),
    {
        Environment { assignments: Vec::new() }
    }

    /// Assigns `value` to `name`, in place of the value that `name` had, if it had
    /// one.
    pub fn insert(&mut self, name: &str, value: &str)
        ensures
            final(self)@ == old(self)@.insert(name@, value@),
    {
        proof {
            use_type_invariant(&*self);
        }
        let wanted = String::from_str(name);
        let ghost before = self.assignments@;
        let mut assignments: Vec<(String, String)> = Vec::new();
        std::mem::swap(&mut self.assignments, &mut assignments);
        let mut i: usize = 0;
        let mut found: Option<usize> = None;
        while i < assignments.len()
            invariant_except_break
                found is None,
                forall|j: int| 0 <= j < i ==> (#[trigger] before[j]).0@ != name@,
            invariant
                i <= assignments@.len(),
                assignments@ == before,
                wanted@ == name@,
            ensures
                assignments@ == before,
                match found {
                    Some(at) => at < before.len() && before[at as int].0@ == name@,
                    None => forall|j: int|
                        0 <= j < before.len() ==> (#[trigger] before[j]).0@ != name@,
                },
            decreases assignments@.len() - i,
        {
            if assignments[i].0 == wanted {
                found = Some(i);
                break ;
            }
            i = i + 1;
        }
        match found {
            Some(at) => {
                let _ = assignments.remove(at);
                proof {
                    lemma_without(before, at as int, value@);
                    assert forall|j: int| 0 <= j < before.remove(at as int).len() implies (
                    #[trigger] before.remove(at as int)[j]).0@ != name@ by {
                        if j < at {
                            assert(before.remove(at as int)[j] == before[j]);
                        } else {
                            assert(before.remove(at as int)[j] == before[j + 1]);
                        }
                    }
                    assert(distinct_names(before.remove(at as int))) by {
                        assert forall|a: int, b: int|
                            0 <= a < b < before.remove(at as int).len() implies (
                        #[trigger] before.remove(at as int)[a]).0@ != (#[trigger] before.remove(
                            at as int,
                        )[b]).0@ by {
                            let a0 = if a < at { a } else { a + 1 };
                            let b0 = if b < at { b } else { b + 1 };
                            assert(before.remove(at as int)[a] == before[a0]);
                            assert(before.remove(at as int)[b] == before[b0]);
                        }
                    }
                }
            },
            None => {},
        }
        let ghost kept = assignments@;
        assignments.push((wanted, String::from_str(value)));
        proof {
            assert(assignments@.drop_last() == kept);
            assert(distinct_names(assignments@)) by {
                assert forall|a: int, b: int| 0 <= a < b < assignments@.len() implies (
                #[trigger] assignments@[a]).0@ != (#[trigger] assignments@[b]).0@ by {
                    assert(assignments@[a] == kept[a]);
                    if b < kept.len() {
                        assert(assignments@[b] == kept[b]);
                    }
                }
            }
        }
        self.assignments = assignments;
    }

    /// The value assigned to `name`, if any.
    pub fn get(&self, name: &str) -> (r: Option<String>)
        ensures
            text_of(r) == (if self@.contains_key(name@) {
                Some(self@[name@])
            } else {
                None
            }),
    {
        let wanted = String::from_str(name);
        let mut i: usize = self.assignments.len();
        assert(self.assignments@.take(i as int) == self.assignments@);
        while i > 0
            invariant
                i <= self.assignments@.len(),
                wanted@ == name@,
                mapping_of(self.assignments@).contains_key(name@) <==> mapping_of(
                    self.assignments@.take(i as int),
                ).contains_key(name@),
                mapping_of(self.assignments@).contains_key(name@) ==> mapping_of(
                    self.assignments@,
                )[name@] == mapping_of(self.assignments@.take(i as int))[name@],
            decreases i,
        {
            let ghost prefix = self.assignments@.take(i as int);
            assert(prefix.drop_last() == self.assignments@.take(i - 1));
            assert(prefix.last() == self.assignments@[i - 1]);
            i = i - 1;
            if self.assignments[i].0 == wanted {
                return Some(self.assignments[i].1.clone());
            }
        }
        assert(self.assignments@.take(0).len() == 0);
        None
    }

    /// The assignments, each name once.
    pub fn assignments(&self) -> (r: &Vec<(String, String)>)
        ensures
            mapping_of(r@) == self@,
            distinct_names(r@),
    {
        proof {
            use_type_invariant(self);
        }
        &self.assignments
    }

    /// An environment that assigns the same values to the same names.
    pub fn duplicate(&self) -> (r: Environment)
        ensures
            r@ == self@,
    {
        proof {
            use_type_invariant(self);
        }
        let mut copy: Vec<(String, String)> = Vec::new();
        let mut i: usize = 0;
        while i < self.assignments.len()
            invariant
                i <= self.assignments@.len(),
                copy@ == self.assignments@.take(i as int),
            decreases self.assignments@.len() - i,
        {
            copy.push((self.assignments[i].0.clone(), self.assignments[i].1.clone()));
            assert(copy@ == self.assignments@.take(i + 1));
            i = i + 1;
        }
        assert(self.assignments@.take(i as int) == self.assignments@);
        Environment { assignments: copy }
    }
}

/// A script to run: its text, where to run it and with which environment variables.
/// [`Script::new`] trims the text; a script that is put together field by field is run
/// as it stands.
#[derive(Debug, PartialEq, Eq)]
pub struct Script {
    /// The commands, without leading or trailing white space.
    pub content: String,
    /// The directory to run in; the script's own temporary directory if there is none.
    pub working_dir: Option<String>,
    /// Environment variables set for the script, over those of the caller.
    pub environment: Environment,
}

/// The mathematical value of a [`Script`].
pub struct ScriptView {
    pub content: Seq<char>,
    pub working_dir: Option<Seq<char>>,
    pub environment: Map<Seq<char>, Seq<char>>,
}

impl View for Script {
    type V = ScriptView;

    open spec fn view(&self) -> ScriptView {
        ScriptView {
            content: self.content@,
            working_dir: text_of(self.working_dir),
            environment: self.environment@,
        }
    }
}

impl Script {
    /// A script with the given commands, trimmed, that runs in its own temporary
    /// directory with the environment of the caller.
    pub fn new(content: &str) -> (r: Script)
        ensures
            r@ == (ScriptView {
                content: trimmed(content@),
                working_dir: None,
                environment: Map::empty(),
            }),
    {
        Script {
            content: trim(content),
            working_dir: None,
            environment: Environment::new(),
        }
    }

    /// The same script with `environment` as its environment variables.
    pub fn environment(self, environment: &Environment) -> (r: Script)
        ensures
            r@ == (ScriptView { environment: environment@, ..self@ }),
    {
        Script {
            content: self.content,
            working_dir: self.working_dir,
            environment: environment.duplicate(),
        }
    }

    /// The same script, run in `working_dir`.
    pub fn working_dir(self, working_dir: &str) -> (r: Script)
        ensures
            r@ == (ScriptView { working_dir: Some(working_dir@), ..self@ }),
    {
        Script {
            content: self.content,
            working_dir: Some(String::from_str(working_dir)),
            environment: self.environment,
        }
    }
}

} // verus!
