use vstd::prelude::*;

verus! {

/// Number of rules in the catalog.
pub const RULE_COUNT: usize = 10;

/// Live-neighbour counts at which a dead cell comes alive under the rule at `index`.
pub open spec fn birth_counts(index: int) -> Set<int> {
    if index == 0 {
        set![3]
    } else if index == 1 {
        set![3, 4]
    } else if index == 2 {
        set![1, 3, 5, 7]
    } else if index == 3 {
        set![2]
    } else if index == 4 {
        set![3, 4, 5]
    } else if index == 5 {
        set![3]
    } else if index == 6 {
        set![3]
    } else if index == 7 {
        set![3]
    } else if index == 8 {
        set![3, 6, 7, 8]
    } else if index == 9 {
        set![4, 5, 6, 7, 8]
    } else {
        set![]
    }
}

/// Live-neighbour counts at which a live cell stays alive under the rule at `index`.
pub open spec fn survival_counts(index: int) -> Set<int> {
    if index == 0 {
        set![2, 3]
    } else if index == 1 {
        set![3, 4]
    } else if index == 2 {
        set![1, 3, 5, 7]
    } else if index == 3 {
        set![]
    } else if index == 4 {
        set![5]
    } else if index == 5 {
        set![0, 1, 2, 3]
    } else if index == 6 {
        set![0, 1, 2, 3, 4]
    } else if index == 7 {
        set![0, 1, 2, 3, 4, 5, 6, 7, 8]
    } else if index == 8 {
        set![3, 4, 6, 7, 8]
    } else if index == 9 {
        set![2, 3, 4, 5, 7]
    } else {
        set![]
    }
}

/// Display name of the rule at `index`.
pub open spec fn rule_name(index: int) -> Seq<char> {
    if index == 0 {
        "Conway's Life"@
    } else if index == 1 {
        "3-4 Life"@
    } else if index == 2 {
        "Replicator"@
    } else if index == 3 {
        "Seeds"@
    } else if index == 4 {
        "Long Life"@
    } else if index == 5 {
        "Parallels"@
    } else if index == 6 {
        "A-maze-ing"@
    } else if index == 7 {
        "No Death"@
    } else if index == 8 {
        "Day & Night"@
    } else {
        "Walled Cities"@
    }
}

/// Next state of a cell under the rule at `index`, given whether it is alive and
/// how many of its neighbours are.
pub open spec fn rule_outcome(index: int, alive: bool, count: int) -> bool {
    if alive {
        survival_counts(index).contains(count)
    } else {
        birth_counts(index).contains(count)
    }
}

/// Index reached by one step forward through the catalog.
pub open spec fn next_index(index: int) -> int {
    (index + 1) % (RULE_COUNT as int)
}

/// Index reached by one step backward through the catalog.
pub open spec fn prev_index(index: int) -> int {
    (index + RULE_COUNT - 1) % (RULE_COUNT as int)
}

/// Index reached by `steps` steps forward from `index`.
pub open spec fn forward(index: int, steps: nat) -> int
    decreases steps,
{
    if steps == 0 {
        index
    } else {
        next_index(forward(index, (steps - 1) as nat))
    }
}

/// A named birth/survival rule: `flags[0][n]` says whether a dead cell with `n`
/// live neighbours is born, `flags[1][n]` whether a live one survives.
#[derive(Clone, Copy)]
pub struct Rule {
    name: &'static str,
    flags: [[bool; 9]; 2],
}

impl Rule {
    /// This record is the catalog's entry at `index`.
    pub closed spec fn is_entry(&self, index: int) -> bool {
        &&& self.name@ == rule_name(index)
        &&& forall|n: int| 0 <= n < 9 ==> #[trigger] self.flags[0][n] == birth_counts(index).contains(n)
        &&& forall|n: int|
            0 <= n < 9 ==> #[trigger] self.flags[1][n] == survival_counts(index).contains(n)
    }
}

/// The catalog's entry at `index`.
fn rule_at(index: usize) -> (r: Rule)
    requires
        index < RULE_COUNT,
    ensures
        r.is_entry(index as int),
{
    let r = if index == 0 {
        Rule {
            name: "Conway's Life",
            flags: [
                [false, false, false, true, false, false, false, false, false],
                [false, false, true, true, false, false, false, false, false],
            ],
        }
    } else if index == 1 {
        Rule {
            name: "3-4 Life",
            flags: [
                [false, false, false, true, true, false, false, false, false],
                [false, false, false, true, true, false, false, false, false],
            ],
        }
    } else if index == 2 {
        Rule {
            name: "Replicator",
            flags: [
                [false, true, false, true, false, true, false, true, false],
                [false, true, false, true, false, true, false, true, false],
            ],
        }
    } else if index == 3 {
        Rule {
            name: "Seeds",
            flags: [
                [false, false, true, false, false, false, false, false, false],
                [false, false, false, false, false, false, false, false, false],
            ],
        }
    } else if index == 4 {
        Rule {
            name: "Long Life",
            flags: [
                [false, false, false, true, true, true, false, false, false],
                [false, false, false, false, false, true, false, false, false],
            ],
        }
    } else if index == 5 {
        Rule {
            name: "Parallels",
            flags: [
                [false, false, false, true, false, false, false, false, false],
                [true, true, true, true, false, false, false, false, false],
            ],
        }
    } else if index == 6 {
        Rule {
            name: "A-maze-ing",
            flags: [
                [false, false, false, true, false, false, false, false, false],
                [true, true, true, true, true, false, false, false, false],
            ],
        }
    } else if index == 7 {
        Rule {
            name: "No Death",
            flags: [
                [false, false, false, true, false, false, false, false, false],
                [true, true, true, true, true, true, true, true, true],
            ],
        }
    } else if index == 8 {
        Rule {
            name: "Day & Night",
            flags: [
                [false, false, false, true, false, false, true, true, true],
                [false, false, false, true, true, false, true, true, true],
            ],
        }
    } else {
        Rule {
            name: "Walled Cities",
            flags: [
                [false, false, false, false, true, true, true, true, true],
                [false, false, true, true, true, true, false, true, false],
            ],
        }
    };
    r
}

/// Relies on rand::random: a value drawn from the thread-local generator. Nothing
/// is promised of the value.
pub assume_specification<T>[ rand::random::<T> ]() -> (r: T)
    where
        rand::distributions::Standard: rand::distributions::Distribution<T>,
;

/// The catalog position of the active rule.
pub struct Rules {
    rule: usize,
}

impl View for Rules {
    type V = nat;

    closed spec fn view(&self) -> nat {
        self.rule as nat
    }
}

impl Rules {
    #[verifier::type_invariant]
    spec fn in_catalog(&self) -> bool {
        self.rule < RULE_COUNT
    }

    /// Catalog position of the active rule.
    pub fn index(&self) -> (r: usize)
        ensures
            r == self@,
            r < RULE_COUNT,
    {
        proof {
            use_type_invariant(self);
        }
        self.rule
    }

    /// Next state of a cell under the active rule: the survival table when it is
    /// alive, the birth table when it is dead, at `count` live neighbours.
    pub fn eval(&self, state: bool, count: usize) -> (r: bool)
        requires
            count <= 8,
        ensures
            r == rule_outcome(self@ as int, state, count as int),
    {
        proof {
            use_type_invariant(self);
        }
        let rule = rule_at(self.rule);
        if state {
            rule.flags[1][count]
        } else {
            rule.flags[0][count]
        }
    }

    /// Display name of the active rule.
    pub fn name(&self) -> (r: &'static str)
        ensures
            r@ == rule_name(self@ as int),
    {
        proof {
            use_type_invariant(self);
        }
        rule_at(self.rule).name
    }

    /// Moves to the next rule, from the last one back to the first.
    pub fn next_rule(&mut self)
        ensures
            final(self)@ == next_index(old(self)@ as int),
    {
        proof {
            use_type_invariant(&*self);
        }
        self.set_rule(self.rule + 1);
    }

    /// Moves to the previous rule, from the first one to the last.
    pub fn prev_rule(&mut self)
        ensures
            final(self)@ == prev_index(old(self)@ as int),
    {
        proof {
            use_type_invariant(&*self);
        }
        self.set_rule(RULE_COUNT + self.rule - 1);
    }

    /// Moves to a rule drawn at random.
    pub fn random_rule(&mut self)
        ensures
            final(self)@ < RULE_COUNT,
    {
        let value = rand::random::<usize>();
        self.set_rule(value);
    }

    /// Moves back to the first rule of the catalog.
    pub fn reset_rules(&mut self)
        ensures
            final(self)@ == 0,
    {
        *self = Rules { rule: 0 };
    }

    /// Moves to the rule at `value` taken modulo the catalog's size.
    pub fn set_rule(&mut self, value: usize)
        ensures
            final(self)@ == value % RULE_COUNT,
    {
        *self = Rules { rule: value % RULE_COUNT };
    }
}

impl Default for Rules {
    /// The first rule of the catalog.
    fn default() -> (r: Self)
        ensures
            r@ == 0,
    {
        Rules { rule: 0 }
    }
}

/// Stepping forward from the last rule reaches the first, stepping back from the
/// first reaches the last, and as many steps forward as the catalog has rules
/// lead back to where they started.
pub proof fn lemma_cycling(index: int)
    requires
        0 <= index < RULE_COUNT,
    ensures
        next_index(RULE_COUNT - 1) == 0,
        prev_index(0) == RULE_COUNT - 1,
        forward(index, RULE_COUNT as nat) == index,
{
    assert(forall|k: nat| k <= RULE_COUNT ==> #[trigger] forward(index, k) == (index + k) % (RULE_COUNT as int)) by {
        assert forall|k: nat| k <= RULE_COUNT implies #[trigger] forward(index, k) == (index + k) % (RULE_COUNT as int) by {
            lemma_forward(index, k);
        }
    }
}

proof fn lemma_forward(index: int, k: nat)
    requires
        0 <= index < RULE_COUNT,
    ensures
        forward(index, k) == (index + k) % (RULE_COUNT as int),
    decreases k,
{
    if k > 0 {
        lemma_forward(index, (k - 1) as nat);
        let n = RULE_COUNT as int;
        vstd::arithmetic::div_mod::lemma_add_mod_noop(index + k - 1, 1, n);
        vstd::arithmetic::div_mod::lemma_small_mod(1, n as nat);
        vstd::arithmetic::div_mod::lemma_mod_twice(index + k - 1, n);
    }
}

} // verus!
