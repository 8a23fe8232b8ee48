//! Observer registry: a subject owns an ordered collection of non-owning
//! observer references, broadcasts a notification to each of them in
//! registration order, and removes entries by value equality (first match).

use vstd::prelude::*;
use vstd::std_specs::cmp::PartialEqSpec;

verus! {

/// An entity able to receive a zero-argument notification.
///
/// An observer's visible behaviour is to emit a line of text when notified;
/// `update` hands that text back so that the callers, which do the actual
/// printing, stay outside the verified library.
pub trait Observer {
    /// The text this observer answers with when it is notified.
    spec fn response(&self) -> Seq<char>;

    /// Receive one notification and hand back this observer's response text.
    fn update(&self) -> (r: String)
        ensures
            r@ == self.response(),
    ;
}

/// Failure returned by `remove` when no registered entry is value-equal to
/// the argument.
#[derive(Clone, Copy, Debug, PartialEq, Eq, Structural)]
pub enum RegistryError {
    NotFound,
}

/// Index of the first entry of `s` that is value-equal to `target`, or `-1`
/// when no entry matches.
pub open spec fn first_match<T: PartialEq>(s: Seq<&T>, target: &T) -> int
    decreases s.len(),
{
    if s.len() == 0 {
        -1
    } else if s[0].eq_spec(target) {
        0
    } else {
        let rest = first_match(s.skip(1), target);
        if rest < 0 {
            -1
        } else {
            rest + 1
        }
    }
}

/// How many entries of `s` are value-equal to `target`.
pub open spec fn match_count<T: PartialEq>(s: Seq<&T>, target: &T) -> nat
    decreases s.len(),
{
    if s.len() == 0 {
        0
    } else {
        (if s[0].eq_spec(target) {
            1nat
        } else {
            0nat
        }) + match_count(s.skip(1), target)
    }
}

/// A subject: registers observer references, removes them by value equality,
/// and broadcasts notifications in registration order.
pub trait Subject<'a, T: Observer + PartialEq> {
    /// The registered observer references, in registration order.
    spec fn observers(&self) -> Seq<&'a T>;

    /// Append `observer` to the collection; duplicates by value are allowed.
    fn register(&mut self, observer: &'a T)
        ensures
            final(self).observers() == old(self).observers().push(observer),
    ;

    /// Delete the first entry value-equal to `observer`; report `NotFound`
    /// (leaving the registry unchanged) when no entry matches.
    fn remove(&mut self, observer: &'a T) -> (r: Result<(), RegistryError>)
        requires
            T::obeys_eq_spec(),
        ensures
            ({
                let i = first_match(old(self).observers(), observer);
                if i >= 0 {
                    &&& r == Ok::<(), RegistryError>(())
                    &&& final(self).observers() == old(self).observers().remove(i)
                } else {
                    &&& r == Err::<(), RegistryError>(RegistryError::NotFound)
                    &&& final(self).observers() == old(self).observers()
                }
            }),
    ;

    /// Notify every registered observer exactly once, in registration order,
    /// collecting each observer's response text in that same order.
    fn notify(&self) -> (r: Vec<String>)
        ensures
            r@.len() == self.observers().len(),
            forall|i: int|
                0 <= i < r@.len() ==> (#[trigger] r@[i])@ == self.observers()[i].response(),
    ;

    /// The number of currently registered observers.
    fn count_observers(&self) -> (r: usize)
        ensures
            r == self.observers().len(),
    ;
}

/// A subject holding its observers as a vector of non-owning references;
/// the registry never takes over the observers' lifetime.
pub struct MySubject<'a, T: Observer> {
    observers: Vec<&'a T>,
}

impl<'a, T: Observer> MySubject<'a, T> {
    /// The registered observer references, in registration order.
    pub closed spec fn entries(&self) -> Seq<&'a T> {
        self.observers@
    }

    /// A subject starts with no registered observers.
    pub fn new() -> (s: MySubject<'a, T>)
        ensures
            s.entries() == Seq::<&'a T>::empty(),
    {
        MySubject { observers: Vec::new() }
    }
}

impl<'a, T: Observer + PartialEq> Subject<'a, T> for MySubject<'a, T> {
    open spec fn observers(&self) -> Seq<&'a T> {
        self.entries()
    }

    fn register(&mut self, observer: &'a T) {
        self.observers.push(observer);
    }

    fn remove(&mut self, observer: &'a T) -> (r: Result<(), RegistryError>) {
        let mut i: usize = 0;
        while i < self.observers.len()
            invariant
                T::obeys_eq_spec(),
                i <= self.observers.len(),
                self == old(self),
                forall|j: int|
                    0 <= j < i ==> !(#[trigger] self.observers@[j]).eq_spec(observer),
            decreases self.observers.len() - i,
        {
            if *self.observers[i] == *observer {
                proof {
                    lemma_first_match_found(self.observers@, observer, i as int);
                }
                self.observers.remove(i);
                return Ok(());
            }
            i += 1;
        }
        proof {
            lemma_first_match_none(self.observers@, observer);
        }
        Err(RegistryError::NotFound)
    }

    fn notify(&self) -> (r: Vec<String>) {
        let mut responses: Vec<String> = Vec::new();
        let mut i: usize = 0;
        while i < self.observers.len()
            invariant
                i <= self.observers.len(),
                responses@.len() == i,
                forall|j: int|
                    0 <= j < i ==> (#[trigger] responses@[j])@ == self.observers@[j].response(),
            decreases self.observers.len() - i,
        {
            let text = self.observers[i].update();
            responses.push(text);
            i += 1;
        }
        responses
    }

    fn count_observers(&self) -> (r: usize) {
        self.observers.len()
    }
}

/// The number of value-equal entries is zero exactly when no entry at all
/// is value-equal to the target.
proof fn lemma_match_count_zero<T: PartialEq>(s: Seq<&T>, target: &T)
    ensures
        (match_count(s, target) == 0) <==> (forall|j: int|
            0 <= j < s.len() ==> !(#[trigger] s[j]).eq_spec(target)),
    decreases s.len(),
{
    if s.len() == 0 {
    } else {
        lemma_match_count_zero(s.skip(1), target);
        assert forall|j: int| 0 <= j < s.skip(1).len() implies s.skip(1)[j] == s[j + 1] by {}
        if match_count(s, target) == 0 {
            assert forall|j: int| 0 <= j < s.len() implies !(#[trigger] s[j]).eq_spec(target) by {
                if j > 0 {
                    assert(s[j] == s.skip(1)[j - 1]);
                }
            }
        }
    }
}

/// Some entry is value-equal to the target exactly when a first match exists.
proof fn lemma_match_count_first_match<T: PartialEq>(s: Seq<&T>, target: &T)
    ensures
        (match_count(s, target) > 0) <==> (first_match(s, target) >= 0),
    decreases s.len(),
{
    if s.len() == 0 {
    } else {
        lemma_match_count_first_match(s.skip(1), target);
    }
}

/// Deleting the entry at index `i` lowers the number of value-equal entries
/// by one when `s[i]` matches the target, and leaves it unchanged otherwise.
proof fn lemma_match_count_remove<T: PartialEq>(s: Seq<&T>, target: &T, i: int)
    requires
        0 <= i < s.len(),
    ensures
        match_count(s.remove(i), target) == match_count(s, target) - (if s[i].eq_spec(target) {
            1int
        } else {
            0int
        }),
    decreases i,
{
    if i == 0 {
        assert(s.remove(0) =~= s.skip(1));
    } else {
        lemma_match_count_remove(s.skip(1), target, i - 1);
        assert(s.remove(i).skip(1) =~= s.skip(1).remove(i - 1));
        assert(s.remove(i)[0] == s[0]);
        assert(s.skip(1)[i - 1] == s[i]);
    }
}

/// Law: removing by value deletes exactly the first value-equal entry. The
/// entries before it keep their positions, the entries after it slide down
/// by one — so every other entry, value-equal duplicates included, is kept —
/// and the number of entries value-equal to the target drops by exactly one.
pub proof fn lemma_remove_first_match<T: PartialEq>(s: Seq<&T>, target: &T)
    requires
        first_match(s, target) >= 0,
    ensures
        ({
            let i = first_match(s, target);
            &&& 0 <= i < s.len()
            &&& s[i].eq_spec(target)
            &&& forall|j: int| 0 <= j < i ==> !(#[trigger] s[j]).eq_spec(target)
            &&& s.remove(i).len() == s.len() - 1
            &&& forall|j: int| 0 <= j < i ==> s.remove(i)[j] == s[j]
            &&& forall|j: int| i <= j < s.len() - 1 ==> s.remove(i)[j] == s[j + 1]
            &&& match_count(s.remove(i), target) == match_count(s, target) - 1
        }),
    decreases s.len(),
{
    let i = first_match(s, target);
    lemma_first_match_in_range(s, target);
    lemma_match_count_remove(s, target, i);
}

/// Law: an observer registered exactly once is, after its removal, absent
/// from the registry altogether — no remaining entry is value-equal to it,
/// so a later broadcast reaches it zero times — and the registry holds
/// exactly one entry fewer.
pub proof fn lemma_removed_observer_absent<T: PartialEq>(s: Seq<&T>, target: &T)
    requires
        match_count(s, target) == 1,
    ensures
        ({
            let i = first_match(s, target);
            &&& 0 <= i < s.len()
            &&& s.remove(i).len() == s.len() - 1
            &&& forall|j: int|
                0 <= j < s.remove(i).len() ==> !(#[trigger] s.remove(i)[j]).eq_spec(target)
        }),
{
    lemma_match_count_first_match(s, target);
    lemma_remove_first_match(s, target);
    let i = first_match(s, target);
    lemma_match_count_zero(s.remove(i), target);
}

/// A non-negative first match lies inside the sequence, points at a
/// value-equal entry, and no earlier entry is value-equal to the target.
proof fn lemma_first_match_in_range<T: PartialEq>(s: Seq<&T>, target: &T)
    requires
        first_match(s, target) >= 0,
    ensures
        ({
            let i = first_match(s, target);
            &&& 0 <= i < s.len()
            &&& s[i].eq_spec(target)
            &&& forall|j: int| 0 <= j < i ==> !(#[trigger] s[j]).eq_spec(target)
        }),
    decreases s.len(),
{
    if s.len() == 0 {
    } else if s[0].eq_spec(target) {
    } else {
        lemma_first_match_in_range(s.skip(1), target);
        let i = first_match(s, target);
        assert(s.skip(1)[i - 1] == s[i]);
        assert forall|j: int| 0 <= j < i implies !(#[trigger] s[j]).eq_spec(target) by {
            if j > 0 {
                assert(s[j] == s.skip(1)[j - 1]);
            }
        }
    }
}

/// When `s[i]` is value-equal to `target` and no earlier entry is, `i` is
/// the first match.
proof fn lemma_first_match_found<T: PartialEq>(s: Seq<&T>, target: &T, i: int)
    requires
        0 <= i < s.len(),
        s[i].eq_spec(target),
        forall|j: int| 0 <= j < i ==> !(#[trigger] s[j]).eq_spec(target),
    ensures
        first_match(s, target) == i,
    decreases i,
{
    if i == 0 {
    } else {
        assert(!s[0].eq_spec(target));
        assert forall|j: int| 0 <= j < i - 1 implies !(#[trigger] s.skip(1)[j]).eq_spec(
            target,
        ) by {
            assert(s.skip(1)[j] == s[j + 1]);
        }
        assert(s.skip(1)[i - 1] == s[i]);
        lemma_first_match_found(s.skip(1), target, i - 1);
    }
}

/// When no entry of `s` is value-equal to `target`, there is no first match.
proof fn lemma_first_match_none<T: PartialEq>(s: Seq<&T>, target: &T)
    requires
        forall|j: int| 0 <= j < s.len() ==> !(#[trigger] s[j]).eq_spec(target),
    ensures
        first_match(s, target) == -1,
    decreases s.len(),
{
    if s.len() == 0 {
    } else {
        assert forall|j: int| 0 <= j < s.skip(1).len() implies !(#[trigger] s.skip(1)[j]).eq_spec(
            target,
        ) by {
            assert(s.skip(1)[j] == s[j + 1]);
        }
        lemma_first_match_none(s.skip(1), target);
    }
}

/// A concrete observer with a stable numeric identity and a display label.
/// Two observers are compared by full value: both the id and the name.
pub struct MyObserver {
    pub id: u32,
    pub name: String,
}

impl Observer for MyObserver {
    /// An observer answers a notification with its display label; callers
    /// outside the library do the printing.
    open spec fn response(&self) -> Seq<char> {
        self.name@
    }

    fn update(&self) -> (r: String) {
        self.name.clone()
    }
}

impl PartialEq for MyObserver {
    fn eq(&self, other: &MyObserver) -> (r: bool) {
        self.id == other.id && self.name == other.name
    }
}

impl vstd::std_specs::cmp::PartialEqSpecImpl for MyObserver {
    open spec fn obeys_eq_spec() -> bool {
        true
    }

    open spec fn eq_spec(&self, other: &MyObserver) -> bool {
        self.id == other.id && self.name@ == other.name@
    }
}

} // verus!
