//! The registry of the functions that can be called by name.

use vstd::prelude::*;
use vstd::string::StringExecFns;
use crate::handler::{failure, failure_reply};
use crate::store::Store;
use crate::val::ByteQue;

verus! {

/// Whether `f` can be called on every queue.
pub open spec fn accepts_all<F: Fn(&mut ByteQue) -> ByteQue>(f: F) -> bool {
    forall|q: &mut ByteQue| call_requires(f, (q,))
}

/// The reply to a call of a function that is not registered: a failure
/// that names the function.
pub open spec fn not_found_reply(name: Seq<char>) -> Seq<u8> {
    failure_reply(name + " function not found"@)
}

/// The functions that can be called, each under its name. A function takes
/// the queue that holds its encoded arguments and returns the queue that
/// holds its encoded result. The view maps each name to its function.
pub struct Fun<F: Fn(&mut ByteQue) -> ByteQue> {
    entries: Vec<(String, F)>,
}

impl<F: Fn(&mut ByteQue) -> ByteQue> View for Fun<F> {
    type V = Map<Seq<char>, F>;

    closed spec fn view(&self) -> Map<Seq<char>, F> {
        Map::new(
            |name: Seq<char>| holds(self.entries@, name),
            |name: Seq<char>| self.entries@[place(self.entries@, name)].1,
        )
    }
}

/// Whether `entries` has an entry under `name`.
spec fn holds<F>(entries: Seq<(String, F)>, name: Seq<char>) -> bool {
    exists|i: int| 0 <= i < entries.len() && #[trigger] entries[i].0@ == name
}

/// Where `entries` has its entry under `name`.
spec fn place<F>(entries: Seq<(String, F)>, name: Seq<char>) -> int {
    choose|i: int| 0 <= i < entries.len() && #[trigger] entries[i].0@ == name
}

/// No name occurs twice.
spec fn distinct<F>(entries: Seq<(String, F)>) -> bool {
    forall|i: int, j: int|
        0 <= i < entries.len() && 0 <= j < entries.len() && #[trigger] entries[i].0@
            == #[trigger] entries[j].0@ ==> i == j
}

impl<F: Fn(&mut ByteQue) -> ByteQue> Fun<F> {
    #[verifier::type_invariant]
    spec fn inv(self) -> bool {
        &&& distinct(self.entries@)
        &&& forall|i: int|
            0 <= i < self.entries@.len() ==> accepts_all(#[trigger] self.entries@[i].1)
    }

    /// A registry without functions.
    pub fn new() -> (fun: Self)
        ensures
            fun@ == Map::<Seq<char>, F>::empty(),
    {
        let fun = Fun { entries: Vec::new() };
        assert(fun@ =~= Map::<Seq<char>, F>::empty());
        fun
    }

    /// Where the entry under `name` is, if there is one.
    fn find(&self, name: &String) -> (at: Option<usize>)
        ensures
            match at {
                Some(i) => i < self.entries@.len() && self.entries@[i as int].0@ == name@,
                None => !holds(self.entries@, name@),
            },
    {
        let mut i: usize = 0;
        while i < self.entries.len()
            invariant
                i <= self.entries@.len(),
                forall|k: int| 0 <= k < i ==> self.entries@[k].0@ != name@,
            decreases self.entries@.len() - i,
        {
            if self.entries[i].0 == *name {
                return Some(i);
            }
            i += 1;
        }
        None
    }

    /// Registers `f` under `name`, in place of what was registered under
    /// that name before.
    pub fn regist(&mut self, name: &str, f: F)
        requires
            accepts_all(f),
        ensures
            final(self)@ == old(self)@.insert(name@, f),
    {
        proof {
            use_type_invariant(&*self);
        }
        let name = name.to_owned();
        let at = self.find(&name);
        let mut entries = Vec::new();
        core::mem::swap(&mut self.entries, &mut entries);
        let ghost before = entries@;
        match at {
            Some(i) => {
                entries[i] = (name, f);
            },
            None => {
                entries.push((name, f));
            },
        }
        proof {
            let after = entries@;
            let at = match at {
                Some(i) => i as int,
                None => before.len() as int,
            };
            assert(after[at].0@ == name@);
            assert forall|n: Seq<char>| holds(after, n) <==> (holds(before, n) || n == name@) by {
                if holds(after, n) && n != name@ {
                    let k = place(after, n);
                    assert(before[k].0@ == n);
                }
                if holds(before, n) {
                    let k = place(before, n);
                    assert(after[k].0@ == before[k].0@);
                }
            }
            assert forall|n: Seq<char>| holds(after, n) implies after[place(after, n)].1 == (if n
                == name@ {
                f
            } else {
                before[place(before, n)].1
            }) by {
                let k = place(after, n);
                if n == name@ {
                    assert(after[k].0@ == after[at].0@);
                } else {
                    assert(before[k].0@ == n);
                    let j = place(before, n);
                    assert(after[j].0@ == after[k].0@);
                }
            }
        }
        core::mem::swap(&mut self.entries, &mut entries);
        assert(self@ =~= old(self)@.insert(name@, f));
    }

    /// Answers a request: reads the name at its head, and calls the
    /// function registered under it on what follows. The function's reply
    /// is returned as it is: `reply` is what a call of that function can
    /// return on a queue that holds the arguments, and `q` is left as that
    /// call leaves it. Where no function has that name, the reply is a
    /// failure that says so.
    pub fn invoke(&self, q: &mut ByteQue) -> (reply: ByteQue)
        ensures
            ({
                let (name, args) = String::parse(old(q)@);
                if self@.contains_key(name) {
                    exists|p: &mut ByteQue|
                        (*p)@ == args && (*final(p))@ == final(q)@ && #[trigger] call_ensures(
                            self@[name],
                            (p,),
                            reply,
                        )
                } else {
                    reply@ == not_found_reply(name) && final(q)@ == args
                }
            }),
    {
        proof {
            use_type_invariant(self);
        }
        let name = String::restore(q);
        match self.find(&name) {
            Some(i) => {
                let f = &self.entries[i].1;
                proof {
                    let k = place(self.entries@, name@);
                    assert(self.entries@[k].0@ == self.entries@[i as int].0@);
                    assert(self@[name@] == *f);
                }
                f(q)
            },
            None => {
                assert(!self@.contains_key(name@));
                failure(name.concat(" function not found").as_str())
            },
        }
    }
}

} // verus!
