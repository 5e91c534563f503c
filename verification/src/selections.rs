//! A set of table selections, keyed by their names.
use vstd::prelude::*;
use crate::table::{Selection, SelectionModel};

verus! {

/// Selections of a table, at most one per name.
#[derive(Debug)]
pub struct SelectionMap {
    items: Vec<Selection>,
}

/// The names of a sequence of selections are pairwise distinct.
pub open spec fn distinct_names(s: Seq<Selection>) -> bool {
    forall|i: int, j: int| 0 <= i < j < s.len() ==> s[i].name@ != s[j].name@
}

/// The dictionary that a sequence of selections with distinct names stands for.
pub open spec fn selections_map(s: Seq<Selection>) -> Map<Seq<char>, SelectionModel>
    decreases s.len(),
{
    if s.len() == 0 {
        Map::empty()
    } else {
        selections_map(s.drop_last()).insert(s.last().name@, s.last().deep_view())
    }
}

impl View for SelectionMap {
    type V = Map<Seq<char>, SelectionModel>;

    closed spec fn view(&self) -> Map<Seq<char>, SelectionModel> {
        selections_map(self.items@)
    }
}

proof fn lemma_selections_map(s: Seq<Selection>)
    requires
        distinct_names(s),
    ensures
        forall|k: Seq<char>|
            #[trigger] selections_map(s).contains_key(k) <==> exists|i: int|
                0 <= i < s.len() && s[i].name@ == k,
        forall|i: int|
            0 <= i < s.len() ==> #[trigger] selections_map(s)[s[i].name@] == s[i].deep_view(),
    decreases s.len(),
{
    if s.len() > 0 {
        let p = s.drop_last();
        assert(distinct_names(p));
        lemma_selections_map(p);
        assert(selections_map(s) == selections_map(p).insert(s.last().name@, s.last().deep_view()));
        assert forall|k: Seq<char>| #[trigger] selections_map(s).contains_key(k) <==> exists|i: int|
            0 <= i < s.len() && s[i].name@ == k by {
            if k == s.last().name@ {
                assert(s[s.len() - 1].name@ == k);
            }
            if selections_map(s).contains_key(k) && k != s.last().name@ {
                assert(selections_map(p).contains_key(k));
                let i = choose|i: int| 0 <= i < p.len() && p[i].name@ == k;
                assert(s[i].name@ == k);
            }
            if exists|i: int| 0 <= i < s.len() && s[i].name@ == k {
                let i = choose|i: int| 0 <= i < s.len() && s[i].name@ == k;
                if i < s.len() - 1 {
                    assert(p[i].name@ == k);
                }
            }
        }
        assert forall|i: int| 0 <= i < s.len() implies #[trigger] selections_map(s)[s[i].name@]
            == s[i].deep_view() by {
            if i < s.len() - 1 {
                assert(p[i] == s[i]);
            }
        }
    }
}

proof fn lemma_selections_map_update(s: Seq<Selection>, i: int, x: Selection)
    requires
        distinct_names(s),
        0 <= i < s.len(),
        s[i].name@ == x.name@,
    ensures
        distinct_names(s.update(i, x)),
        selections_map(s.update(i, x)) == selections_map(s).insert(x.name@, x.deep_view()),
{
    let t = s.update(i, x);
    lemma_selections_map(s);
    lemma_selections_map(t);
    let target = selections_map(s).insert(x.name@, x.deep_view());
    assert(selections_map(t) =~= target) by {
        assert forall|key: Seq<char>| #[trigger] selections_map(t).contains_key(key)
            <==> target.contains_key(key) by {
            if key == x.name@ {
                assert(t[i].name@ == key);
            }
            if target.contains_key(key) && key != x.name@ {
                let j = choose|j: int| 0 <= j < s.len() && s[j].name@ == key;
                assert(t[j].name@ == key);
            }
            if selections_map(t).contains_key(key) {
                let j = choose|j: int| 0 <= j < t.len() && t[j].name@ == key;
                if j != i {
                    assert(s[j].name@ == key);
                }
            }
        }
        assert forall|key: Seq<char>| #[trigger] selections_map(t).contains_key(key) implies selections_map(
            t,
        )[key] == target[key] by {
            let j = choose|j: int| 0 <= j < t.len() && t[j].name@ == key;
            assert(selections_map(t)[t[j].name@] == t[j].deep_view());
            if j != i {
                assert(selections_map(s)[s[j].name@] == s[j].deep_view());
            }
        }
    }
}

proof fn lemma_selections_map_remove(s: Seq<Selection>, i: int)
    requires
        distinct_names(s),
        0 <= i < s.len(),
    ensures
        distinct_names(s.remove(i)),
        selections_map(s.remove(i)) == selections_map(s).remove(s[i].name@),
{
    let t = s.remove(i);
    let k = s[i].name@;
    assert(distinct_names(t)) by {
        assert forall|a: int, b: int| 0 <= a < b < t.len() implies t[a].name@ != t[b].name@ by {
            let a2 = if a < i { a } else { a + 1 };
            let b2 = if b < i { b } else { b + 1 };
            assert(t[a] == s[a2]);
            assert(t[b] == s[b2]);
        }
    }
    lemma_selections_map(s);
    lemma_selections_map(t);
    assert(selections_map(t) =~= selections_map(s).remove(k)) by {
        assert forall|key: Seq<char>| #[trigger] selections_map(t).contains_key(key)
            <==> selections_map(s).remove(k).contains_key(key) by {
            if selections_map(s).remove(k).contains_key(key) {
                let j = choose|j: int| 0 <= j < s.len() && s[j].name@ == key;
                let j2 = if j < i { j } else { j - 1 };
                assert(t[j2] == s[j]);
            }
            if selections_map(t).contains_key(key) {
                let j = choose|j: int| 0 <= j < t.len() && t[j].name@ == key;
                let j2 = if j < i { j } else { j + 1 };
                assert(t[j] == s[j2]);
            }
        }
        assert forall|key: Seq<char>| #[trigger] selections_map(t).contains_key(key) implies selections_map(
            t,
        )[key] == selections_map(s).remove(k)[key] by {
            let j = choose|j: int| 0 <= j < t.len() && t[j].name@ == key;
            let j2 = if j < i { j } else { j + 1 };
            assert(t[j] == s[j2]);
            assert(selections_map(t)[t[j].name@] == t[j].deep_view());
            assert(selections_map(s)[s[j2].name@] == s[j2].deep_view());
        }
    }
}

impl SelectionMap {
    #[verifier::type_invariant]
    spec fn inv(self) -> bool {
        distinct_names(self.items@)
    }

    /// No selections.
    pub fn new() -> (r: SelectionMap)
        ensures
            r@ == Map::<Seq<char>, SelectionModel>::empty(),
    {
        let r = SelectionMap { items: Vec::new() };
        assert(selections_map(r.items@) == Map::<Seq<char>, SelectionModel>::empty());
        r
    }

    fn find(&self, name: &String) -> (r: Option<usize>)
        ensures
            match r {
                Some(i) => i < self.items@.len() && self.items@[i as int].name@ == name@,
                None => forall|j: int| 0 <= j < self.items@.len() ==> self.items@[j].name@ != name@,
            },
    {
        let mut i: usize = 0;
        while i < self.items.len()
            invariant
                i <= self.items@.len(),
                forall|j: int| 0 <= j < i ==> self.items@[j].name@ != name@,
            decreases self.items.len() - i,
        {
            if self.items[i].name == *name {
                return Some(i);
            }
            i = i + 1;
        }
        None
    }

    /// The selection with a given name, if any.
    pub fn get(&self, name: &String) -> (r: Option<&Selection>)
        ensures
            match r {
                Some(v) => self@.contains_key(name@) && self@[name@] == v.deep_view(),
                None => !self@.contains_key(name@),
            },
    {
        proof {
            use_type_invariant(self);
            lemma_selections_map(self.items@);
        }
        match self.find(name) {
            Some(i) => Some(&self.items[i]),
            None => None,
        }
    }

    /// Store a selection, replacing the one with the same name.
    pub fn insert(&mut self, x: Selection)
        ensures
            final(self)@ == old(self)@.insert(x.name@, x.deep_view()),
    {
        proof {
            use_type_invariant(&*self);
            lemma_selections_map(self.items@);
        }
        match self.find(&x.name) {
            Some(i) => {
                proof {
                    lemma_selections_map_update(self.items@, i as int, x);
                }
                let mut e: Vec<Selection> = Vec::new();
                std::mem::swap(&mut e, &mut self.items);
                e.set(i, x);
                self.items = e;
            },
            None => {
                let ghost s = self.items@;
                let mut e: Vec<Selection> = Vec::new();
                std::mem::swap(&mut e, &mut self.items);
                e.push(x);
                assert(e@.drop_last() =~= s);
                assert(distinct_names(e@));
                self.items = e;
            },
        }
    }

    /// Remove the selection with a given name, if any.
    pub fn remove(&mut self, name: &String) -> (r: Option<Selection>)
        ensures
            final(self)@ == old(self)@.remove(name@),
            match r {
                Some(v) => old(self)@.contains_key(name@) && old(self)@[name@] == v.deep_view(),
                None => !old(self)@.contains_key(name@),
            },
    {
        proof {
            use_type_invariant(&*self);
            lemma_selections_map(self.items@);
        }
        match self.find(name) {
            Some(i) => {
                proof {
                    lemma_selections_map_remove(self.items@, i as int);
                }
                let mut e: Vec<Selection> = Vec::new();
                std::mem::swap(&mut e, &mut self.items);
                let v = e.remove(i);
                self.items = e;
                Some(v)
            },
            None => {
                assert(old(self)@.remove(name@) =~= old(self)@);
                None
            },
        }
    }

    /// The selections, in the order they were first stored.
    pub fn to_vec(&self) -> (r: Vec<Selection>)
        ensures
            r.len() == self@.len(),
            forall|i: int| 0 <= i < r.len() ==> self@.contains_key(#[trigger] r@[i].name@) && self@[r@[i].name@] == r@[i].deep_view(),
            forall|k: Seq<char>| self@.contains_key(k) ==> exists|i: int| 0 <= i < r.len() && #[trigger] r@[i].name@ == k,
    {
        proof {
            use_type_invariant(self);
            lemma_selections_map(self.items@);
            lemma_selections_map_len(self.items@);
        }
        let mut out: Vec<Selection> = Vec::new();
        let mut i: usize = 0;
        while i < self.items.len()
            invariant
                i <= self.items.len(),
                out.len() == i,
                forall|j: int| 0 <= j < i ==> out@[j].deep_view() == #[trigger] self.items@[j].deep_view(),
            decreases self.items.len() - i,
        {
            out.push(self.items[i].clone());
            i = i + 1;
        }
        assert forall|k: Seq<char>| self@.contains_key(k) implies exists|i: int| 0 <= i < out.len() && #[trigger] out@[i].name@ == k by {
            let j = choose|j: int| 0 <= j < self.items@.len() && self.items@[j].name@ == k;
            assert(out@[j].deep_view() == self.items@[j].deep_view());
        }
        assert forall|i: int| 0 <= i < out.len() implies self@.contains_key(#[trigger] out@[i].name@) && self@[out@[i].name@] == out@[i].deep_view() by {
            assert(out@[i].deep_view() == self.items@[i].deep_view());
        }
        out
    }

    /// Store selections in order, each replacing the one with the same name.
    pub fn insert_all(&mut self, list: Vec<Selection>)
        ensures
            final(self)@ == insert_all(old(self)@, list.deep_view()),
    {
        let ghost l = list.deep_view();
        let ghost start = self@;
        let mut i: usize = 0;
        assert(l.take(0) =~= Seq::<SelectionModel>::empty());
        while i < list.len()
            invariant
                i <= list@.len(),
                l == list.deep_view(),
                self@ == insert_all(start, l.take(i as int)),
            decreases list.len() - i,
        {
            let x = list[i].clone();
            proof {
                assert(x.deep_view() == l[i as int]);
                assert(l.take(i + 1).drop_last() =~= l.take(i as int));
            }
            self.insert(x);
            i = i + 1;
        }
        assert(l.take(l.len() as int) =~= l);
    }
}

/// Storing selections in order, each replacing the one with the same name.
pub open spec fn insert_all(m: Map<Seq<char>, SelectionModel>, l: Seq<SelectionModel>) -> Map<Seq<char>, SelectionModel>
    decreases l.len(),
{
    if l.len() == 0 {
        m
    } else {
        insert_all(m, l.drop_last()).insert(l.last().name, l.last())
    }
}

proof fn lemma_selections_map_len(s: Seq<Selection>)
    requires
        distinct_names(s),
    ensures
        selections_map(s).len() == s.len(),
        selections_map(s).dom().finite(),
    decreases s.len(),
{
    if s.len() > 0 {
        let p = s.drop_last();
        assert(distinct_names(p));
        lemma_selections_map_len(p);
        lemma_selections_map(p);
        assert(!selections_map(p).contains_key(s.last().name@)) by {
            if selections_map(p).contains_key(s.last().name@) {
                let i = choose|i: int| 0 <= i < p.len() && p[i].name@ == s.last().name@;
                assert(s[i] == p[i]);
            }
        }
    }
}

} // verus!
