//! The set of accounts that a session manages, as the server lists them.
use vstd::prelude::*;

verus! {

/// The pieces of `s` between occurrences of `sep`; always at least one, possibly empty.
pub open spec fn split_on(s: Seq<char>, sep: char) -> Seq<Seq<char>>
    decreases s.len(),
{
    if s.len() == 0 {
        seq![seq![]]
    } else {
        let p = split_on(s.drop_last(), sep);
        if s.last() == sep {
            p.push(seq![])
        } else {
            p.update(p.len() - 1, p.last().push(s.last()))
        }
    }
}

/// The non-empty comma-separated names in one field.
pub open spec fn names_in(field: Seq<char>) -> Set<Seq<char>> {
    split_on(field, ',').to_set().filter(|a: Seq<char>| a.len() > 0)
}

/// The names in all of `fields`.
pub open spec fn names_in_all(fields: Seq<Seq<char>>) -> Set<Seq<char>>
    decreases fields.len(),
{
    if fields.len() == 0 {
        Set::empty()
    } else {
        names_in_all(fields.drop_last()).union(names_in(fields.last()))
    }
}

/// The accounts that a managed-accounts message lists: every non-empty comma-separated
/// name in the fields after its tag and version.
pub open spec fn accounts_of(fields: Seq<Seq<char>>) -> Set<Seq<char>> {
    if fields.len() <= 2 {
        Set::empty()
    } else {
        names_in_all(fields.skip(2))
    }
}

/// Splits `s` at each `sep`.
pub fn split_text(s: &str, sep: char) -> (r: Vec<String>)
    ensures
        r.deep_view() == split_on(s@, sep),
{
    let n = s.unicode_len();
    let mut done: Vec<String> = Vec::new();
    let mut start: usize = 0;
    let mut i: usize = 0;
    assert(s@.take(0) =~= Seq::<char>::empty());
    assert(done.deep_view().push(s@.subrange(0, 0)) =~= seq![Seq::<char>::empty()]);
    while i < n
        invariant
            start <= i <= n,
            n == s@.len(),
            done.deep_view().push(s@.subrange(start as int, i as int)) == split_on(
                s@.take(i as int),
                sep,
            ),
        decreases n - i,
    {
        let c = s.get_char(i);
        let ghost prev = split_on(s@.take(i as int), sep);
        assert(s@.take(i + 1).drop_last() =~= s@.take(i as int));
        assert(s@.take(i + 1).last() == c);
        if c == sep {
            let ghost old_done = done.deep_view();
            let piece = s.substring_char(start, i).to_owned();
            done.push(piece);
            assert(done.deep_view() =~= old_done.push(piece@));
            start = i + 1;
            assert(s@.subrange(start as int, i + 1) =~= Seq::<char>::empty());
            assert(done.deep_view().push(s@.subrange(start as int, i + 1)) =~= prev.push(seq![]));
        } else {
            assert(s@.subrange(start as int, i + 1) =~= s@.subrange(start as int, i as int).push(c));
            assert(done.deep_view().push(s@.subrange(start as int, i + 1)) =~= prev.update(
                prev.len() - 1,
                prev.last().push(c),
            ));
        }
        i = i + 1;
    }
    assert(s@.take(n as int) =~= s@);
    let ghost old_done = done.deep_view();
    let last = s.substring_char(start, n).to_owned();
    done.push(last);
    assert(done.deep_view() =~= old_done.push(last@));
    done
}

/// Whether two texts are the same.
pub fn same_text(a: &str, b: &str) -> (r: bool)
    ensures
        r == (a@ == b@),
{
    let n = a.unicode_len();
    if n != b.unicode_len() {
        return false;
    }
    let mut i: usize = 0;
    while i < n
        invariant
            i <= n,
            n == a@.len(),
            n == b@.len(),
            a@.take(i as int) == b@.take(i as int),
        decreases n - i,
    {
        if a.get_char(i) != b.get_char(i) {
            return false;
        }
        assert(a@.take(i + 1) =~= a@.take(i as int).push(a@[i as int]));
        assert(b@.take(i + 1) =~= b@.take(i as int).push(b@[i as int]));
        i = i + 1;
    }
    assert(a@.take(n as int) =~= a@);
    assert(b@.take(n as int) =~= b@);
    true
}

/// A set of account names, each held once.
#[derive(Debug)]
pub struct ManagedAccounts {
    names: Vec<String>,
}

impl View for ManagedAccounts {
    type V = Set<Seq<char>>;

    closed spec fn view(&self) -> Set<Seq<char>> {
        self.names.deep_view().to_set()
    }
}

impl ManagedAccounts {
    /// No name is held twice.
    #[verifier::type_invariant]
    spec fn held_once(&self) -> bool {
        self.names.deep_view().no_duplicates()
    }

    /// The empty set.
    pub fn new() -> (r: ManagedAccounts)
        ensures
            r@ == Set::<Seq<char>>::empty(),
    {
        let r = ManagedAccounts { names: Vec::new() };
        assert(r.names.deep_view() =~= Seq::<Seq<char>>::empty());
        assert(r@ =~= Set::<Seq<char>>::empty());
        r
    }

    /// Whether `name` is one of the accounts.
    pub fn contains(&self, name: &str) -> (r: bool)
        ensures
            r == self@.contains(name@),
    {
        let mut i: usize = 0;
        while i < self.names.len()
            invariant
                i <= self.names@.len(),
                forall|k: int| 0 <= k < i ==> self.names@[k]@ != name@,
            decreases self.names@.len() - i,
        {
            if same_text(self.names[i].as_str(), name) {
                assert(self.names.deep_view()[i as int] == name@);
                return true;
            }
            i = i + 1;
        }
        assert(!self.names.deep_view().contains(name@)) by {
            if self.names.deep_view().contains(name@) {
                let k = choose|k: int| 0 <= k < self.names@.len() && self.names.deep_view()[k] == name@;
                assert(self.names@[k]@ == name@);
            }
        }
        false
    }

    /// Adds `name` unless it is already held.
    pub fn insert(&mut self, name: String)
        ensures
            final(self)@ == old(self)@.insert(name@),
    {
        let mut current = ManagedAccounts::new();
        std::mem::swap(self, &mut current);
        *self = current.with(name);
    }

    /// This set with `name` added.
    fn with(self, name: String) -> (r: ManagedAccounts)
        ensures
            r@ == self@.insert(name@),
    {
        proof {
            use_type_invariant(&self);
        }
        if self.contains(name.as_str()) {
            assert(self@.insert(name@) =~= self@);
            return self;
        }
        let ghost before = self.names.deep_view();
        let ghost v = name@;
        let ManagedAccounts { names } = self;
        let mut names = names;
        names.push(name);
        assert(names.deep_view() =~= before.push(v));
        let r = ManagedAccounts { names };
        assert(r@ =~= before.to_set().insert(v)) by {
            before.lemma_push_to_set_commute(v);
        }
        r
    }

    /// The number of accounts.
    pub fn len(&self) -> (r: usize)
        ensures
            r == self@.len(),
    {
        proof {
            use_type_invariant(self);
            self.names.deep_view().unique_seq_to_set();
        }
        self.names.len()
    }

    /// The accounts, each once.
    pub fn names(&self) -> (r: Vec<String>)
        ensures
            r.deep_view().to_set() == self@,
            r.deep_view().no_duplicates(),
    {
        proof {
            use_type_invariant(self);
        }
        self.names.clone()
    }

    /// The accounts that a managed-accounts message lists.
    pub fn from_fields(fields: &Vec<String>) -> (r: ManagedAccounts)
        ensures
            r@ == accounts_of(fields.deep_view()),
    {
        let ghost views = fields.deep_view();
        let mut acc = ManagedAccounts::new();
        if fields.len() <= 2 {
            return acc;
        }
        let ghost rest = views.skip(2);
        let mut j: usize = 2;
        while j < fields.len()
            invariant
                2 <= j <= fields@.len(),
                views == fields.deep_view(),
                rest == views.skip(2),
                acc@ == names_in_all(rest.take(j - 2)),
            decreases fields@.len() - j,
        {
            let pieces = split_text(fields[j].as_str(), ',');
            let ghost parts = pieces.deep_view();
            let ghost base = acc@;
            let mut k: usize = 0;
            while k < pieces.len()
                invariant
                    k <= pieces@.len(),
                    parts == pieces.deep_view(),
                        acc@ == base.union(parts.take(k as int).to_set().filter(|a: Seq<char>| a.len() > 0)),
                decreases pieces@.len() - k,
            {
                let ghost before = acc@;
                let p = pieces[k].clone();
                if p.as_str().unicode_len() > 0 {
                    acc.insert(p);
                }
                k = k + 1;
                proof {
                    let now = parts.take(k as int);
                    let prev = parts.take(k - 1);
                    assert(now =~= prev.push(parts[k - 1]));
                    prev.lemma_push_to_set_commute(parts[k - 1]);
                    assert(acc@ =~= base.union(now.to_set().filter(|a: Seq<char>| a.len() > 0)));
                }
            }
            assert(parts.take(pieces@.len() as int) =~= parts);
            assert(rest.take(j - 1).drop_last() =~= rest.take(j - 2));
            assert(rest.take(j - 1).last() == views[j as int]);
            assert(acc@ =~= names_in_all(rest.take(j - 1)));
            j = j + 1;
        }
        assert(rest.take(j - 2) =~= rest);
        acc
    }
}

} // verus!
