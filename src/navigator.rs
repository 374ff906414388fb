use vstd::arithmetic::div_mod::{
    lemma_add_mod_noop_right, lemma_mod_add_multiples_vanish, lemma_mod_sub_multiples_vanish,
    lemma_mod_self_0, lemma_small_mod, lemma_sub_mod_noop,
};
use vstd::prelude::*;

verus! {

/// The position after `i` in a circular list of `n` entries.
pub open spec fn next_index(i: int, n: int) -> int {
    (i + 1) % n
}

/// The position before `i` in a circular list of `n` entries.
pub open spec fn prev_index(i: int, n: int) -> int {
    if i == 0 {
        n - 1
    } else {
        i - 1
    }
}

/// Where `k` forward steps from `i` land.
pub open spec fn advance(i: int, n: int, k: nat) -> int
    decreases k,
{
    if k == 0 {
        i
    } else {
        next_index(advance(i, n, (k - 1) as nat), n)
    }
}

/// Where `k` backward steps from `i` land.
pub open spec fn retreat(i: int, n: int, k: nat) -> int
    decreases k,
{
    if k == 0 {
        i
    } else {
        prev_index(retreat(i, n, (k - 1) as nat), n)
    }
}

proof fn lemma_advance_is_mod(i: int, n: int, k: nat)
    requires
        0 <= i < n,
    ensures
        advance(i, n, k) == (i + k) % n,
    decreases k,
{
    if k == 0 {
        lemma_small_mod(i as nat, n as nat);
    } else {
        lemma_advance_is_mod(i, n, (k - 1) as nat);
        lemma_add_mod_noop_right(1, i + k - 1, n);
    }
}

proof fn lemma_retreat_is_mod(i: int, n: int, k: nat)
    requires
        0 <= i < n,
    ensures
        retreat(i, n, k) == (i - k) % n,
    decreases k,
{
    if k == 0 {
        lemma_small_mod(i as nat, n as nat);
    } else {
        lemma_retreat_is_mod(i, n, (k - 1) as nat);
        let j = (i - k + 1) % n;
        lemma_sub_mod_noop(i - k + 1, 1, n);
        if n == 1 {
            lemma_mod_self_0(1);
        } else {
            lemma_small_mod(1, n as nat);
        }
        if j == 0 {
            lemma_mod_add_multiples_vanish(-1, n);
            lemma_small_mod((n - 1) as nat, n as nat);
        } else {
            lemma_small_mod((j - 1) as nat, n as nat);
        }
    }
}

/// Taking as many forward steps as a circular list has entries comes back to
/// the starting position; so does taking as many backward steps.
pub proof fn lemma_full_cycle_returns(i: int, n: int)
    requires
        0 <= i < n,
    ensures
        advance(i, n, n as nat) == i,
        retreat(i, n, n as nat) == i,
{
    lemma_advance_is_mod(i, n, n as nat);
    lemma_retreat_is_mod(i, n, n as nat);
    lemma_mod_add_multiples_vanish(i, n);
    lemma_mod_sub_multiples_vanish(i, n);
    lemma_small_mod(i as nat, n as nat);
}

/// One forward step in a circular list of `n` entries.
pub(crate) fn step_forward(i: usize, n: usize) -> (r: usize)
    requires
        i < n,
    ensures
        r == next_index(i as int, n as int),
        r < n,
{
    if i + 1 == n {
        proof {
            lemma_mod_self_0(n as int);
        }
        0
    } else {
        proof {
            lemma_small_mod((i + 1) as nat, n as nat);
        }
        i + 1
    }
}

/// One backward step in a circular list of `n` entries.
pub(crate) fn step_back(i: usize, n: usize) -> (r: usize)
    requires
        i < n,
    ensures
        r == prev_index(i as int, n as int),
        r < n,
{
    if i > 0 {
        i - 1
    } else {
        n - 1
    }
}

/// A country as the country list names it: its full name and its
/// two-letter code.
pub struct Country {
    name: String,
    iso2: String,
}

impl Country {
    pub fn new(name: String, iso2: String) -> (r: Country)
        ensures
            r.name_view() == name@,
            r.iso2_view() == iso2@,
    {
        Country { name, iso2 }
    }

    pub closed spec fn name_view(&self) -> Seq<char> {
        self.name@
    }

    pub closed spec fn iso2_view(&self) -> Seq<char> {
        self.iso2@
    }

    pub fn name(&self) -> (r: &str)
        ensures
            r@ == self.name_view(),
    {
        self.name.as_str()
    }

    pub fn iso2(&self) -> (r: &str)
        ensures
            r@ == self.iso2_view(),
    {
        self.iso2.as_str()
    }
}

/// A fixed list of countries with a movable selection.
pub struct CountriesList {
    countries: Vec<Country>,
    selected: usize,
}

impl CountriesList {
    /// The entries of the list, in order.
    pub closed spec fn entries(&self) -> Seq<Country> {
        self.countries@
    }

    /// The position of the selection.
    pub closed spec fn selection(&self) -> int {
        self.selected as int
    }

    /// The list has entries and the selection points at one of them.
    pub open spec fn wf(&self) -> bool {
        0 <= self.selection() < self.entries().len()
    }

    /// An empty list, selection at the start. It cannot be navigated.
    pub fn new() -> (r: Self)
        ensures
            r.entries().len() == 0,
            r.selection() == 0,
    {
        CountriesList { countries: Vec::new(), selected: 0 }
    }

    /// A list of the given countries with the first one selected, or `None`
    /// when there are none: an empty list cannot be navigated.
    pub fn with_countries(countries: Vec<Country>) -> (r: Option<Self>)
        ensures
            countries@.len() == 0 <==> r.is_none(),
            r matches Some(l) ==> l.entries() == countries@ && l.selection() == 0 && l.wf(),
    {
        if countries.len() == 0 {
            None
        } else {
            Some(CountriesList { countries, selected: 0 })
        }
    }

    /// Moves the selection one entry forward, from the last back to the first.
    pub fn next(&mut self)
        requires
            old(self).wf(),
        ensures
            final(self).entries() == old(self).entries(),
            final(self).selection() == next_index(
                old(self).selection(),
                old(self).entries().len() as int,
            ),
            final(self).wf(),
    {
        self.selected = step_forward(self.selected, self.countries.len());
    }

    /// Moves the selection one entry back, from the first to the last.
    pub fn previous(&mut self)
        requires
            old(self).wf(),
        ensures
            final(self).entries() == old(self).entries(),
            final(self).selection() == prev_index(
                old(self).selection(),
                old(self).entries().len() as int,
            ),
            final(self).wf(),
    {
        self.selected = step_back(self.selected, self.countries.len());
    }

    /// The position of the selection.
    pub fn selected(&self) -> (r: usize)
        ensures
            r == self.selection(),
    {
        self.selected
    }

    /// The number of entries.
    pub fn len(&self) -> (r: usize)
        ensures
            r == self.entries().len(),
    {
        self.countries.len()
    }

    /// The selected country.
    pub fn selected_country(&self) -> (r: &Country)
        requires
            self.wf(),
        ensures
            *r == self.entries()[self.selection()],
    {
        &self.countries[self.selected]
    }
}

} // verus!
