use std::rc::Rc;
use vstd::hash_map::StringHashMap;
use vstd::prelude::*;

verus! {

/// A store of shared values that are made on first demand: a value is made once, by
/// the factory, when its key is asked for the first time, and shared from then on.
#[verifier::reject_recursive_types(T)]
#[verifier::reject_recursive_types(E)]
pub struct Cache<T, E, F: Fn(&str) -> Result<T, E>> {
    log_tag: String,
    store: StringHashMap<Rc<T>>,
    factory: F,
}

impl<T, E, F: Fn(&str) -> Result<T, E>> View for Cache<T, E, F> {
    type V = Map<Seq<char>, Rc<T>>;

    closed spec fn view(&self) -> Map<Seq<char>, Rc<T>> {
        self.store@
    }
}

impl<T, E, F: Fn(&str) -> Result<T, E>> Cache<T, E, F> {
    /// The function that makes the values.
    pub closed spec fn maker(&self) -> F {
        self.factory
    }

    /// The name under which the cache is known.
    pub closed spec fn tag(&self) -> Seq<char> {
        self.log_tag@
    }

    /// An empty cache, known as `log_tag`, whose values are made by `factory`.
    pub fn new(log_tag: &str, factory: F) -> (r: Self)
        ensures
            r@ == Map::<Seq<char>, Rc<T>>::empty(),
            r.maker() == factory,
            r.tag() == log_tag@,
    {
        Cache { log_tag: String::from_str(log_tag), store: StringHashMap::new(), factory }
    }

    /// The name under which the cache is known.
    pub fn log_tag(&self) -> (r: &str)
        ensures
            r@ == self.tag(),
    {
        self.log_tag.as_str()
    }

    /// Whether a value for `key` is in the cache.
    pub fn holds(&self, key: &str) -> (r: bool)
        ensures
            r == self@.contains_key(key@),
    {
        self.store.contains_key(key)
    }

    /// The value for `key`. A value that is in the cache is shared as it is, and the
    /// factory is not asked. Otherwise the factory is asked for the value of `key`:
    /// what it makes is put into the cache and shared; if it fails, its failure is
    /// handed on and the cache stays as it was.
    pub fn get(&mut self, key: &str) -> (r: Result<Rc<T>, E>)
        requires
            !old(self)@.contains_key(key@) ==> call_requires(old(self).maker(), (key,)),
        ensures
            final(self).maker() == old(self).maker(),
            final(self).tag() == old(self).tag(),
            old(self)@.contains_key(key@) ==> r == Ok::<Rc<T>, E>(old(self)@[key@]) && final(self)@
                == old(self)@,
            !old(self)@.contains_key(key@) ==> match r {
                Ok(value) => call_ensures(old(self).maker(), (key,), Ok::<T, E>(*value))
                    && final(self)@ == old(self)@.insert(key@, value),
                Err(failure) => call_ensures(old(self).maker(), (key,), Err::<T, E>(failure))
                    && final(self)@ == old(self)@,
            },
    {
        if !self.store.contains_key(key) {
            match (self.factory)(key) {
                Ok(value) => {
                    let shared = Rc::new(value);
                    self.store.insert(String::from_str(key), Rc::clone(&shared));
                    return Ok(shared);
                },
                Err(failure) => {
                    return Err(failure);
                },
            }
        }
        match self.store.get(key) {
            Some(value) => Ok(Rc::clone(value)),
            None => {
                proof {
                    assert(false);
                }
                vstd::pervasive::unreached()
            },
        }
    }
}

} // verus!
