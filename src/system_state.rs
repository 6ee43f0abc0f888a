//! The inhibitor flags and the error log: the state that can keep the
//! machine awake.

use vstd::prelude::*;
use crate::text::{contains_text, is_substring, lower_of, lowercase};

verus! {

/// The view of a vector of strings as a sequence of character sequences.
pub open spec fn texts(v: Seq<String>) -> Seq<Seq<char>> {
    v.map_values(|s: String| s@)
}

/// The first `n` entries of `errors` whose folded form (the entry of `folded`
/// at the same place) does not contain `needle`, in their order.
pub open spec fn kept_prefix(
    errors: Seq<Seq<char>>,
    folded: Seq<Seq<char>>,
    needle: Seq<char>,
    n: nat,
) -> Seq<Seq<char>>
    decreases n,
{
    if n == 0 {
        seq![]
    } else {
        let rest = kept_prefix(errors, folded, needle, (n - 1) as nat);
        if is_substring(needle, folded[n - 1]) {
            rest
        } else {
            rest.push(errors[n - 1])
        }
    }
}

/// The entries of `errors` that do not mention `component`, ignoring case:
/// an entry mentions it when its lower-cased form contains the lower-cased
/// component.
pub open spec fn unmentioned(errors: Seq<Seq<char>>, component: Seq<char>) -> Seq<Seq<char>> {
    kept_prefix(
        errors,
        errors.map_values(|e: Seq<char>| lower_of(e)),
        lower_of(component),
        errors.len(),
    )
}

pub proof fn lemma_kept_prefix_len(
    errors: Seq<Seq<char>>,
    folded: Seq<Seq<char>>,
    needle: Seq<char>,
    n: nat,
)
    ensures
        kept_prefix(errors, folded, needle, n).len() <= n,
    decreases n,
{
    if n > 0 {
        lemma_kept_prefix_len(errors, folded, needle, (n - 1) as nat);
    }
}

/// Dropping entries never lengthens the log.
pub proof fn lemma_unmentioned_len(errors: Seq<Seq<char>>, component: Seq<char>)
    ensures
        unmentioned(errors, component).len() <= errors.len(),
{
    lemma_kept_prefix_len(
        errors,
        errors.map_values(|e: Seq<char>| lower_of(e)),
        lower_of(component),
        errors.len(),
    );
}

/// Keeps the entries of `errors` whose folded form does not contain
/// `folded_needle`; `folded_errors` holds the folded form of each entry.
pub fn retain_unmatched(
    errors: &Vec<String>,
    folded_errors: &Vec<String>,
    folded_needle: &str,
) -> (r: Vec<String>)
    requires
        folded_errors.len() == errors.len(),
    ensures
        texts(r@) == kept_prefix(
            texts(errors@),
            texts(folded_errors@),
            folded_needle@,
            errors.len() as nat,
        ),
{
    let mut r: Vec<String> = Vec::new();
    let mut i: usize = 0;
    while i < errors.len()
        invariant
            folded_errors.len() == errors.len(),
            i <= errors.len(),
            texts(r@) == kept_prefix(texts(errors@), texts(folded_errors@), folded_needle@, i as nat),
        decreases errors.len() - i,
    {
        let hit = contains_text(folded_errors[i].as_str(), folded_needle);
        if !hit {
            r.push(errors[i].clone());
            assert(texts(r@) =~= kept_prefix(
                texts(errors@),
                texts(folded_errors@),
                folded_needle@,
                i as nat,
            ).push(errors@[i as int]@));
        }
        i = i + 1;
    }
    r
}

/// The inhibitor flags of the managed services, keyed by name. A name that
/// was never set reads as inactive.
pub struct InhibitorSet {
    entries: Vec<(String, bool)>,
}

impl View for InhibitorSet {
    type V = Map<Seq<char>, bool>;

    closed spec fn view(&self) -> Map<Seq<char>, bool> {
        Map::new(
            |k: Seq<char>| exists|i: int| 0 <= i < self.entries@.len() && #[trigger] self.entries@[i].0@ == k,
            |k: Seq<char>|
                self.entries@[choose|i: int|
                    0 <= i < self.entries@.len() && #[trigger] self.entries@[i].0@ == k].1,
        )
    }
}

/// A flag is active when it is present and set.
pub open spec fn flag(m: Map<Seq<char>, bool>, name: Seq<char>) -> bool {
    m.contains_key(name) && m[name]
}

/// Some flag of the map is active.
pub open spec fn some_active(m: Map<Seq<char>, bool>) -> bool {
    exists|k: Seq<char>| #[trigger] flag(m, k)
}

impl InhibitorSet {
    #[verifier::type_invariant]
    spec fn names_unique(self) -> bool {
        forall|i: int, j: int|
            0 <= i < j < self.entries@.len() ==> self.entries@[i].0@ != self.entries@[j].0@
    }

    proof fn lemma_entry(self, i: int)
        requires
            self.names_unique(),
            0 <= i < self.entries@.len(),
        ensures
            self@.contains_key(self.entries@[i].0@),
            self@[self.entries@[i].0@] == self.entries@[i].1,
    {
        let k = self.entries@[i].0@;
        assert(self.entries@[i].0@ == k);
        let j = choose|j: int| 0 <= j < self.entries@.len() && #[trigger] self.entries@[j].0@ == k;
        if j < i {
            assert(self.entries@[j].0@ != self.entries@[i].0@);
        } else if i < j {
            assert(self.entries@[i].0@ != self.entries@[j].0@);
        }
    }

    /// An empty set: every name reads as inactive.
    pub fn new() -> (r: Self)
        ensures
            r@ == Map::<Seq<char>, bool>::empty(),
    {
        let r = InhibitorSet { entries: Vec::new() };
        assert(r@ =~= Map::<Seq<char>, bool>::empty());
        r
    }

    /// Sets the flag of `name`.
    pub fn insert(&mut self, name: &str, active: bool)
        ensures
            final(self)@ == old(self)@.insert(name@, active),
    {
        proof {
            use_type_invariant(&*self);
        }
        let key = name.to_owned();
        let n = self.entries.len();
        let mut out: Vec<(String, bool)> = Vec::new();
        let mut found = false;
        let mut i: usize = 0;
        while i < n
            invariant
                n == self.entries.len(),
                i <= n,
                key@ == name@,
                out@.len() == i,
                forall|j: int| 0 <= j < i ==> #[trigger] out@[j].0@ == self.entries@[j].0@,
                forall|j: int| 0 <= j < i ==> #[trigger] out@[j].1 == if self.entries@[j].0@ == name@ {
                    active
                } else {
                    self.entries@[j].1
                },
                found <==> exists|j: int| 0 <= j < i && #[trigger] self.entries@[j].0@ == name@,
            decreases n - i,
        {
            if self.entries[i].0 == key {
                out.push((key.clone(), active));
                found = true;
            } else {
                out.push((self.entries[i].0.clone(), self.entries[i].1));
            }
            i = i + 1;
        }
        if !found {
            out.push((key, active));
        }
        let ghost before = *self;
        self.entries = out;
        proof {
            let after = *self;
            assert forall|a: int, b: int| 0 <= a < b < after.entries@.len() implies
                after.entries@[a].0@ != after.entries@[b].0@ by {
                if b < n {
                    assert(before.entries@[a].0@ != before.entries@[b].0@);
                }
            }
            let target = before@.insert(name@, active);
            assert forall|k: Seq<char>| #[trigger] after@.contains_key(k) == target.contains_key(k)
                && (after@.contains_key(k) ==> after@[k] == target[k]) by {
                if k == name@ {
                    if found {
                        let j = choose|j: int| 0 <= j < n && #[trigger] before.entries@[j].0@ == name@;
                        assert(after.entries@[j].0@ == k);
                        after.lemma_entry(j);
                    } else {
                        after.lemma_entry(n as int);
                    }
                } else {
                    if before@.contains_key(k) {
                        let j = choose|j: int| 0 <= j < before.entries@.len() && #[trigger] before.entries@[j].0@ == k;
                        assert(after.entries@[j].0@ == k);
                        after.lemma_entry(j);
                        before.lemma_entry(j);
                    }
                    if after@.contains_key(k) {
                        let j = choose|j: int| 0 <= j < after.entries@.len() && #[trigger] after.entries@[j].0@ == k;
                        if j < n {
                            assert(before.entries@[j].0@ == k);
                        }
                    }
                }
            }
            assert(after@ =~= target);
        }
    }

    /// Whether the flag of `name` is active; an unknown name is inactive.
    pub fn get(&self, name: &str) -> (r: bool)
        ensures
            r == flag(self@, name@),
    {
        proof {
            use_type_invariant(self);
        }
        let key = name.to_owned();
        let mut i: usize = 0;
        while i < self.entries.len()
            invariant
                self.names_unique(),
                i <= self.entries.len(),
                key@ == name@,
                forall|j: int| 0 <= j < i ==> self.entries@[j].0@ != name@,
            decreases self.entries.len() - i,
        {
            if self.entries[i].0 == key {
                proof {
                    self.lemma_entry(i as int);
                }
                return self.entries[i].1;
            }
            i = i + 1;
        }
        proof {
            if self@.contains_key(name@) {
                let j = choose|j: int| 0 <= j < self.entries@.len() && #[trigger] self.entries@[j].0@ == name@;
                assert(self.entries@[j].0@ != name@);
            }
        }
        false
    }

    /// Whether any flag is active.
    pub fn any_active(&self) -> (r: bool)
        ensures
            r == some_active(self@),
    {
        proof {
            use_type_invariant(self);
        }
        let mut i: usize = 0;
        while i < self.entries.len()
            invariant
                self.names_unique(),
                i <= self.entries.len(),
                forall|j: int| 0 <= j < i ==> !self.entries@[j].1,
            decreases self.entries.len() - i,
        {
            if self.entries[i].1 {
                proof {
                    self.lemma_entry(i as int);
                    assert(flag(self@, self.entries@[i as int].0@));
                }
                return true;
            }
            i = i + 1;
        }
        proof {
            assert forall|k: Seq<char>| !#[trigger] flag(self@, k) by {
                if self@.contains_key(k) {
                    let j = choose|j: int| 0 <= j < self.entries@.len() && #[trigger] self.entries@[j].0@ == k;
                    self.lemma_entry(j);
                }
            }
        }
        false
    }

    /// Each name with its flag, every name once.
    pub fn to_vec(&self) -> (r: Vec<(String, bool)>)
        ensures
            forall|i: int| 0 <= i < r@.len() ==> #[trigger] self@.contains_key(r@[i].0@)
                && self@[r@[i].0@] == r@[i].1,
            forall|k: Seq<char>| #[trigger] self@.contains_key(k) ==> exists|i: int|
                0 <= i < r@.len() && r@[i].0@ == k,
            forall|i: int, j: int| 0 <= i < j < r@.len() ==> r@[i].0@ != r@[j].0@,
    {
        proof {
            use_type_invariant(self);
        }
        let mut r: Vec<(String, bool)> = Vec::new();
        let mut i: usize = 0;
        while i < self.entries.len()
            invariant
                self.names_unique(),
                i <= self.entries.len(),
                r@.len() == i,
                forall|j: int| 0 <= j < i ==> r@[j].0@ == self.entries@[j].0@ && r@[j].1 == self.entries@[j].1,
            decreases self.entries.len() - i,
        {
            let name = self.entries[i].0.clone();
            r.push((name, self.entries[i].1));
            i = i + 1;
        }
        proof {
            assert forall|i: int| 0 <= i < r@.len() implies #[trigger] self@.contains_key(r@[i].0@)
                && self@[r@[i].0@] == r@[i].1 by {
                self.lemma_entry(i);
            }
            assert forall|k: Seq<char>| #[trigger] self@.contains_key(k) implies exists|i: int|
                0 <= i < r@.len() && r@[i].0@ == k by {
                let j = choose|j: int| 0 <= j < self.entries@.len() && #[trigger] self.entries@[j].0@ == k;
                assert(r@[j].0@ == k);
            }
        }
        r
    }

    /// A copy with the same flags.
    pub fn snapshot(&self) -> (r: Self)
        ensures
            r@ == self@,
    {
        proof {
            use_type_invariant(self);
        }
        let mut entries: Vec<(String, bool)> = Vec::new();
        let mut i: usize = 0;
        while i < self.entries.len()
            invariant
                self.names_unique(),
                i <= self.entries.len(),
                entries@.len() == i,
                forall|j: int| 0 <= j < i ==> entries@[j].0@ == self.entries@[j].0@ && entries@[j].1 == self.entries@[j].1,
            decreases self.entries.len() - i,
        {
            let name = self.entries[i].0.clone();
            entries.push((name, self.entries[i].1));
            i = i + 1;
        }
        let r = InhibitorSet { entries };
        proof {
            assert forall|k: Seq<char>| #[trigger] r@.contains_key(k) == self@.contains_key(k)
                && (r@.contains_key(k) ==> r@[k] == self@[k]) by {
                if self@.contains_key(k) {
                    let j = choose|j: int| 0 <= j < self.entries@.len() && #[trigger] self.entries@[j].0@ == k;
                    assert(r.entries@[j].0@ == k);
                    r.lemma_entry(j);
                    self.lemma_entry(j);
                }
                if r@.contains_key(k) {
                    let j = choose|j: int| 0 <= j < r.entries@.len() && #[trigger] r.entries@[j].0@ == k;
                    assert(self.entries@[j].0@ == k);
                }
            }
            assert(r@ =~= self@);
        }
        r
    }
}

/// What a `SystemState` holds, as mathematical values.
pub struct SystemStateView {
    pub coffee: bool,
    pub services: Map<Seq<char>, bool>,
    pub suspended: bool,
    pub errors: Seq<Seq<char>>,
}

impl SystemStateView {
    /// Some inhibitor is active: the manual flag or a service flag.
    pub open spec fn any_active(self) -> bool {
        self.coffee || some_active(self.services)
    }

    /// The state after setting the flag of service `name`.
    pub open spec fn with_service(self, name: Seq<char>, active: bool) -> SystemStateView {
        SystemStateView { services: self.services.insert(name, active), ..self }
    }

    /// The state after setting the manual flag.
    pub open spec fn with_coffee(self, active: bool) -> SystemStateView {
        SystemStateView { coffee: active, ..self }
    }

    /// The state after appending an entry to the error log.
    pub open spec fn with_error(self, error: Seq<char>) -> SystemStateView {
        SystemStateView { errors: self.errors.push(error), ..self }
    }

    /// The state after dropping the log entries that mention `component`.
    pub open spec fn without_errors_for(self, component: Seq<char>) -> SystemStateView {
        SystemStateView { errors: unmentioned(self.errors, component), ..self }
    }
}

/// The state at start-up: nothing active, the ollama service known and off,
/// no errors.
pub open spec fn initial_system_state() -> SystemStateView {
    SystemStateView {
        coffee: false,
        services: map![seq!['o', 'l', 'l', 'a', 'm', 'a'] => false],
        suspended: false,
        errors: seq![],
    }
}

/// The states that can prevent suspension, with the error log and the
/// internal was-suspended marker.
pub struct SystemState {
    /// The manual flag, set and cleared by hand.
    pub coffee: bool,
    /// One flag per managed service.
    pub services: InhibitorSet,
    suspended: bool,
    /// Outstanding errors, oldest first.
    pub errors: Vec<String>,
}

impl View for SystemState {
    type V = SystemStateView;

    closed spec fn view(&self) -> SystemStateView {
        SystemStateView {
            coffee: self.coffee,
            services: self.services@,
            suspended: self.suspended,
            errors: texts(self.errors@),
        }
    }
}

impl SystemState {
    /// Nothing active, the ollama service known and off, no errors.
    pub fn new() -> (r: Self)
        ensures
            r@ == initial_system_state(),
    {
        let mut services = InhibitorSet::new();
        let name = "ollama";
        proof {
            reveal_strlit("ollama");
            assert(name@ =~= seq!['o', 'l', 'l', 'a', 'm', 'a']);
        }
        services.insert(name, false);
        let r = SystemState { coffee: false, services, suspended: false, errors: Vec::new() };
        assert(r@.services =~= initial_system_state().services);
        assert(r@.errors =~= initial_system_state().errors);
        r
    }

    /// A state with the given flags and log; the was-suspended marker is
    /// clear.
    pub fn from_parts(coffee: bool, services: InhibitorSet, errors: Vec<String>) -> (r: Self)
        ensures
            r@ == (SystemStateView {
                coffee,
                services: services@,
                suspended: false,
                errors: texts(errors@),
            }),
    {
        SystemState { coffee, services, suspended: false, errors }
    }

    /// Whether some inhibitor is active.
    pub fn any_active(&self) -> (r: bool)
        ensures
            r == self@.any_active(),
    {
        self.coffee || self.services.any_active()
    }

    /// Whether every inhibitor is inactive.
    pub fn all_inactive(&self) -> (r: bool)
        ensures
            r == !self@.any_active(),
    {
        !self.any_active()
    }

    /// Appends an entry to the error log.
    pub fn add_error(&mut self, error: String)
        ensures
            final(self)@ == old(self)@.with_error(error@),
    {
        let ghost e = error@;
        self.errors.push(error);
        assert(texts(self.errors@) =~= old(self)@.errors.push(e));
    }

    /// Drops the log entries that mention `component`, ignoring case.
    pub fn clear_errors_for(&mut self, component: &str)
        ensures
            final(self)@ == old(self)@.without_errors_for(component@),
    {
        let mut folded: Vec<String> = Vec::new();
        let mut i: usize = 0;
        while i < self.errors.len()
            invariant
                i <= self.errors.len(),
                folded@.len() == i,
                forall|j: int| 0 <= j < i ==> #[trigger] folded@[j]@ == lower_of(self.errors@[j]@),
            decreases self.errors.len() - i,
        {
            folded.push(lowercase(self.errors[i].as_str()));
            i = i + 1;
        }
        let needle = lowercase(component);
        let kept = retain_unmatched(&self.errors, &folded, needle.as_str());
        let ghost before = self@;
        assert(texts(folded@) =~= before.errors.map_values(|e: Seq<char>| lower_of(e)));
        self.errors = kept;
    }

    /// How many entries the error log holds.
    pub fn error_count(&self) -> (r: usize)
        ensures
            r == self@.errors.len(),
    {
        self.errors.len()
    }

    /// Sets the manual flag.
    pub fn set_coffee(&mut self, active: bool)
        ensures
            final(self)@ == old(self)@.with_coffee(active),
    {
        self.coffee = active;
    }

    /// Sets the flag of service `name`.
    pub fn set_service(&mut self, name: &str, active: bool)
        ensures
            final(self)@ == old(self)@.with_service(name@, active),
    {
        self.services.insert(name, active);
    }

    /// Whether the flag of service `name` is active; an unknown service is
    /// inactive.
    pub fn get_service(&self, name: &str) -> (r: bool)
        ensures
            r == flag(self@.services, name@),
    {
        self.services.get(name)
    }

    /// Sets the was-suspended marker.
    pub fn set_suspended(&mut self, suspended: bool)
        ensures
            final(self)@ == (SystemStateView { suspended, ..old(self)@ }),
    {
        self.suspended = suspended;
    }

    /// The was-suspended marker.
    pub fn is_suspended(&self) -> (r: bool)
        ensures
            r == self@.suspended,
    {
        self.suspended
    }

    /// A copy of this state.
    pub fn snapshot(&self) -> (r: Self)
        ensures
            r@ == self@,
    {
        let mut errors: Vec<String> = Vec::new();
        let mut i: usize = 0;
        while i < self.errors.len()
            invariant
                i <= self.errors.len(),
                errors@.len() == i,
                forall|j: int| 0 <= j < i ==> #[trigger] errors@[j]@ == self.errors@[j]@,
            decreases self.errors.len() - i,
        {
            errors.push(self.errors[i].clone());
            i = i + 1;
        }
        assert(texts(errors@) =~= texts(self.errors@));
        SystemState {
            coffee: self.coffee,
            services: self.services.snapshot(),
            suspended: self.suspended,
            errors,
        }
    }
}

impl Default for SystemState {
    fn default() -> (r: Self)
        ensures
            r@ == initial_system_state(),
    {
        Self::new()
    }
}

/// The state after setting the service flags `sets`, in order.
pub open spec fn after_sets(s: SystemStateView, sets: Seq<(Seq<char>, bool)>) -> SystemStateView
    decreases sets.len(),
{
    if sets.len() == 0 {
        s
    } else {
        after_sets(s, sets.drop_last()).with_service(sets.last().0, sets.last().1)
    }
}

/// The value last set for `name` in `sets`, if any.
pub open spec fn last_set(sets: Seq<(Seq<char>, bool)>, name: Seq<char>) -> Option<bool>
    decreases sets.len(),
{
    if sets.len() == 0 {
        None
    } else if sets.last().0 == name {
        Some(sets.last().1)
    } else {
        last_set(sets.drop_last(), name)
    }
}

/// After any sequence of flag changes, each service flag reads as the value
/// last set for it; a name never set reads as it did before.
pub proof fn lemma_last_set_wins(s: SystemStateView, sets: Seq<(Seq<char>, bool)>, name: Seq<char>)
    ensures
        flag(after_sets(s, sets).services, name) == match last_set(sets, name) {
            Some(v) => v,
            None => flag(s.services, name),
        },
    decreases sets.len(),
{
    if sets.len() > 0 {
        lemma_last_set_wins(s, sets.drop_last(), name);
    }
}

/// From the start-up state, after any sequence of flag changes, each service
/// flag reads as the value last set for it, and a name never set reads as
/// inactive.
pub proof fn lemma_flags_from_start(sets: Seq<(Seq<char>, bool)>, name: Seq<char>)
    ensures
        flag(after_sets(initial_system_state(), sets).services, name) == match last_set(sets, name) {
            Some(v) => v,
            None => false,
        },
{
    lemma_last_set_wins(initial_system_state(), sets, name);
}

/// Setting a flag twice in a row gives the same state as setting it once.
pub proof fn lemma_set_idempotent(s: SystemStateView, name: Seq<char>, active: bool)
    ensures
        s.with_service(name, active).with_service(name, active) == s.with_service(name, active),
        s.with_coffee(active).with_coffee(active) == s.with_coffee(active),
{
    assert(s.with_service(name, active).with_service(name, active).services =~= s.with_service(name, active).services);
}

} // verus!
