//! Shared vocabulary of the predicate gates: a gate evaluates named predicates,
//! each passing or failing with a reason, and decides from the failures.
use vstd::prelude::*;
use crate::text::{join, join_strings, lemma_map_push, lowercase_of, to_lowercase, views};

verus! {

/// A predicate enum whose variants print (`Debug`) as their names.
pub trait PredicateName: Sized + Copy {
    /// The `Debug` text of the predicate.
    spec fn name_view(self) -> Seq<char>;

    fn debug_name(&self) -> (s: &'static str)
        ensures
            s@ == self.name_view(),
    ;
}

/// One evaluated predicate: which one, whether it passed, and why.
pub trait CheckResult: Sized {
    type P: PredicateName;

    spec fn check_view(&self) -> (Self::P, bool, Seq<char>);

    fn passed_flag(&self) -> (b: bool)
        ensures
            b == self.check_view().1,
    ;

    fn predicate_value(&self) -> (p: Self::P)
        ensures
            p == self.check_view().0,
    ;

    fn reason_text(&self) -> (s: &str)
        ensures
            s@ == self.check_view().2,
    ;

    fn make_check(p: Self::P, passed: bool, reason: String) -> (r: Self)
        ensures
            r.check_view() == (p, passed, reason@),
    ;
}

/// Evaluated predicates as plain values.
pub open spec fn check_views<T: CheckResult>(v: Seq<T>) -> Seq<(T::P, bool, Seq<char>)> {
    v.map_values(|r: T| r.check_view())
}

/// Every predicate passed.
pub open spec fn all_pass<P>(s: Seq<(P, bool, Seq<char>)>) -> bool {
    forall|i: int| 0 <= i < s.len() ==> (#[trigger] s[i]).1
}

/// The names of the failed predicates, in order.
pub open spec fn failed_names<P: PredicateName>(s: Seq<(P, bool, Seq<char>)>) -> Seq<Seq<char>>
    decreases s.len(),
{
    if s.len() == 0 {
        Seq::empty()
    } else {
        failed_names(s.drop_last()) + if s.last().1 {
            Seq::empty()
        } else {
            seq![s.last().0.name_view()]
        }
    }
}

/// The reasons of the failed predicates, in order.
pub open spec fn failed_reasons<P>(s: Seq<(P, bool, Seq<char>)>) -> Seq<Seq<char>>
    decreases s.len(),
{
    if s.len() == 0 {
        Seq::empty()
    } else {
        failed_reasons(s.drop_last()) + if s.last().1 {
            Seq::empty()
        } else {
            seq![s.last().2]
        }
    }
}

/// `name: reason` of the failed predicates, in order.
pub open spec fn failed_name_reasons<P: PredicateName>(s: Seq<(P, bool, Seq<char>)>) -> Seq<Seq<char>>
    decreases s.len(),
{
    if s.len() == 0 {
        Seq::empty()
    } else {
        failed_name_reasons(s.drop_last()) + if s.last().1 {
            Seq::empty()
        } else {
            seq![s.last().0.name_view() + ": "@ + s.last().2]
        }
    }
}

/// A list of evaluated predicates names no failure exactly when every predicate
/// passed, and it names as many failed predicates as it gives failure reasons.
pub proof fn lemma_failed_empty_iff_all_pass<P: PredicateName>(s: Seq<(P, bool, Seq<char>)>)
    ensures
        failed_names(s).len() == failed_reasons(s).len(),
        failed_names(s).len() == failed_name_reasons(s).len(),
        (failed_names(s).len() == 0) == all_pass(s),
    decreases s.len(),
{
    if s.len() > 0 {
        lemma_failed_empty_iff_all_pass(s.drop_last());
        if !all_pass(s.drop_last()) {
            let i = choose|i: int| 0 <= i < s.drop_last().len() && !(#[trigger] s.drop_last()[i]).1;
            assert(!s[i].1);
        }
        if all_pass(s.drop_last()) && s.last().1 {
            assert forall|i: int| 0 <= i < s.len() implies (#[trigger] s[i]).1 by {
                if i < s.len() - 1 {
                    assert(s[i] == s.drop_last()[i]);
                }
            }
        }
    }
}

proof fn lemma_prefix_views<T: CheckResult>(v: Seq<T>, i: int)
    requires
        0 <= i < v.len(),
    ensures
        check_views(v.subrange(0, i + 1)).drop_last() == check_views(v.subrange(0, i)),
        check_views(v.subrange(0, i + 1)).last() == v[i].check_view(),
{
    assert(check_views(v.subrange(0, i + 1)).drop_last() =~= check_views(v.subrange(0, i)));
}

/// Whether every evaluated predicate passed.
pub fn all_checks_pass<T: CheckResult>(v: &Vec<T>) -> (b: bool)
    ensures
        b == all_pass(check_views(v@)),
{
    let mut i: usize = 0;
    while i < v.len()
        invariant
            i <= v.len(),
            forall|k: int| 0 <= k < i ==> (#[trigger] v@[k]).check_view().1,
        decreases v.len() - i,
    {
        if !v[i].passed_flag() {
            assert(!check_views(v@)[i as int].1);
            return false;
        }
        i += 1;
    }
    assert forall|k: int| 0 <= k < check_views(v@).len() implies (#[trigger] check_views(v@)[k]).1 by {
        assert(check_views(v@)[k] == v@[k].check_view());
    }
    true
}

/// The `Debug` names of the failed predicates, in order.
pub fn failed_check_names<T: CheckResult>(v: &Vec<T>) -> (out: Vec<String>)
    ensures
        views(out@) == failed_names(check_views(v@)),
{
    let mut out: Vec<String> = Vec::new();
    let mut i: usize = 0;
    while i < v.len()
        invariant
            i <= v.len(),
            views(out@) == failed_names(check_views(v@.subrange(0, i as int))),
        decreases v.len() - i,
    {
        let ghost before = out@;
        proof {
            lemma_prefix_views(v@, i as int);
        }
        if !v[i].passed_flag() {
            let p = v[i].predicate_value();
            let name = String::from_str(p.debug_name());
            out.push(name);
            proof {
                lemma_map_push(before, name, |s: String| s@);
            }
        }
        i += 1;
        assert(views(out@) =~= failed_names(check_views(v@.subrange(0, i as int))));
    }
    assert(v@.subrange(0, v.len() as int) =~= v@);
    out
}

/// The reasons of the failed predicates, in order.
pub fn failed_check_reasons<T: CheckResult>(v: &Vec<T>) -> (out: Vec<String>)
    ensures
        views(out@) == failed_reasons(check_views(v@)),
{
    let mut out: Vec<String> = Vec::new();
    let mut i: usize = 0;
    while i < v.len()
        invariant
            i <= v.len(),
            views(out@) == failed_reasons(check_views(v@.subrange(0, i as int))),
        decreases v.len() - i,
    {
        let ghost before = out@;
        proof {
            lemma_prefix_views(v@, i as int);
        }
        if !v[i].passed_flag() {
            let r = String::from_str(v[i].reason_text());
            out.push(r);
            proof {
                lemma_map_push(before, r, |s: String| s@);
            }
        }
        i += 1;
        assert(views(out@) =~= failed_reasons(check_views(v@.subrange(0, i as int))));
    }
    assert(v@.subrange(0, v.len() as int) =~= v@);
    out
}

/// `name: reason` of the failed predicates, in order.
pub fn failed_check_name_reasons<T: CheckResult>(v: &Vec<T>) -> (out: Vec<String>)
    ensures
        views(out@) == failed_name_reasons(check_views(v@)),
{
    let mut out: Vec<String> = Vec::new();
    let mut i: usize = 0;
    while i < v.len()
        invariant
            i <= v.len(),
            views(out@) == failed_name_reasons(check_views(v@.subrange(0, i as int))),
        decreases v.len() - i,
    {
        let ghost before = out@;
        proof {
            lemma_prefix_views(v@, i as int);
        }
        if !v[i].passed_flag() {
            let p = v[i].predicate_value();
            let mut t = String::from_str(p.debug_name());
            t.append(": ");
            t.append(v[i].reason_text());
            out.push(t);
            proof {
                lemma_map_push(before, t, |s: String| s@);
            }
        }
        i += 1;
        assert(views(out@) =~= failed_name_reasons(check_views(v@.subrange(0, i as int))));
    }
    assert(v@.subrange(0, v.len() as int) =~= v@);
    out
}

/// The names of the failed predicates joined with `, `.
pub fn failed_names_joined<T: CheckResult>(v: &Vec<T>) -> (out: String)
    ensures
        out@ == join(failed_names(check_views(v@)), ", "@),
{
    let names = failed_check_names(v);
    join_strings(&names, ", ")
}

/// Appends an evaluated predicate.
pub fn push_check<T: CheckResult>(v: &mut Vec<T>, r: T)
    ensures
        check_views(final(v)@) == check_views(old(v)@).push(r.check_view()),
{
    let ghost before = v@;
    v.push(r);
    proof {
        lemma_map_push(before, r, |x: T| x.check_view());
    }
}

/// A gate's predicate table as plain values: each predicate with its reason when
/// passing and when failing.
pub open spec fn table_view<P>(t: Seq<(P, &'static str, &'static str)>) -> Seq<(P, Seq<char>, Seq<char>)> {
    t.map_values(|e: (P, &'static str, &'static str)| (e.0, e.1@, e.2@))
}

/// The evaluated predicates of a table, given the outcome of each.
pub open spec fn checks_from<P>(table: Seq<(P, Seq<char>, Seq<char>)>, flags: Seq<bool>) -> Seq<(P, bool, Seq<char>)> {
    Seq::new(
        table.len(),
        |i: int|
            (table[i].0, flags[i], if flags[i] {
                table[i].1
            } else {
                table[i].2
            }),
    )
}

/// Builds the evaluated predicates of a table from the outcome of each.
pub fn build_checks<T: CheckResult>(table: &Vec<(T::P, &'static str, &'static str)>, flags: &Vec<bool>) -> (out: Vec<T>)
    requires
        table@.len() == flags@.len(),
    ensures
        check_views(out@) == checks_from(table_view(table@), flags@),
{
    let mut out: Vec<T> = Vec::new();
    let mut i: usize = 0;
    while i < table.len()
        invariant
            table@.len() == flags@.len(),
            i <= table.len(),
            out@.len() == i,
            forall|k: int| 0 <= k < i ==> #[trigger] out@[k].check_view() == checks_from(table_view(table@), flags@)[k],
        decreases table.len() - i,
    {
        let (p, yes, no) = table[i];
        let passed = flags[i];
        let r = T::make_check(p, passed, String::from_str(if passed { yes } else { no }));
        out.push(r);
        i += 1;
    }
    assert(check_views(out@) =~= checks_from(table_view(table@), flags@));
    out
}

/// The lowercased names of the failed predicates, in order.
pub open spec fn lowercase_failed_names<P: PredicateName>(s: Seq<(P, bool, Seq<char>)>) -> Seq<Seq<char>> {
    failed_names(s).map_values(|n: Seq<char>| lowercase_of(n))
}

/// The lowercased names of the failed predicates joined with `, `.
pub fn failed_names_lowercase_joined<T: CheckResult>(v: &Vec<T>) -> (out: String)
    ensures
        out@ == join(lowercase_failed_names(check_views(v@)), ", "@),
{
    let names = failed_check_names(v);
    let mut lower: Vec<String> = Vec::new();
    let mut i: usize = 0;
    while i < names.len()
        invariant
            i <= names.len(),
            lower@.len() == i,
            forall|k: int| 0 <= k < i ==> #[trigger] lower@[k]@ == lowercase_of(names@[k]@),
        decreases names.len() - i,
    {
        lower.push(to_lowercase(names[i].as_str()));
        i += 1;
    }
    assert(views(lower@) =~= views(names@).map_values(|n: Seq<char>| lowercase_of(n)));
    join_strings(&lower, ", ")
}

} // verus!
