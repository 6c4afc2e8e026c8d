//! Copies and lists of values, seen through their models.

use crate::json::{Json, JsonNumber};
use crate::time::Timestamp;
use vstd::prelude::*;

verus! {

/// A value that can be copied without changing its model.
pub trait Duplicate: DeepView + Sized {
    /// A copy of this value.
    fn duplicate(&self) -> (r: Self)
        ensures
            r.deep_view() == self.deep_view(),
    ;
}

impl Duplicate for String {
    fn duplicate(&self) -> (r: Self) {
        self.clone()
    }
}

impl Duplicate for bool {
    fn duplicate(&self) -> (r: Self) {
        *self
    }
}

impl Duplicate for u64 {
    fn duplicate(&self) -> (r: Self) {
        *self
    }
}

impl Duplicate for i64 {
    fn duplicate(&self) -> (r: Self) {
        *self
    }
}

impl Duplicate for u32 {
    fn duplicate(&self) -> (r: Self) {
        *self
    }
}

impl Duplicate for i32 {
    fn duplicate(&self) -> (r: Self) {
        *self
    }
}

impl Duplicate for Timestamp {
    fn duplicate(&self) -> (r: Self) {
        *self
    }
}

impl Duplicate for JsonNumber {
    fn duplicate(&self) -> (r: Self) {
        *self
    }
}

impl Duplicate for Json {
    fn duplicate(&self) -> (r: Self) {
        self.copy()
    }
}

impl<A: Duplicate, B: Duplicate> Duplicate for (A, B) {
    fn duplicate(&self) -> (r: Self) {
        (self.0.duplicate(), self.1.duplicate())
    }
}

impl<T: Duplicate> Duplicate for Option<T> {
    fn duplicate(&self) -> (r: Self) {
        match self {
            Some(value) => Some(value.duplicate()),
            None => None,
        }
    }
}

impl<T: Duplicate> Duplicate for Vec<T> {
    fn duplicate(&self) -> (r: Self) {
        let mut r: Vec<T> = Vec::new();
        let mut i: usize = 0;
        while i < self.len()
            invariant
                i <= self@.len(),
                r@.len() == i,
                forall|j: int|
                    0 <= j < i ==> (#[trigger] r@[j]).deep_view() == self@[j].deep_view(),
            decreases self@.len() - i,
        {
            let item = self[i].duplicate();
            r.push(item);
            i = i + 1;
        }
        proof {
            assert(r.deep_view() =~= self.deep_view());
        }
        r
    }
}

/// Appends `item` to `list`.
pub fn push<T: DeepView>(list: &mut Vec<T>, item: T)
    ensures
        final(list).deep_view() == old(list).deep_view().push(item.deep_view()),
{
    let ghost before = list.deep_view();
    list.push(item);
    proof {
        assert(list.deep_view() =~= before.push(item.deep_view()));
    }
}

/// Appends the items of `more` to `list`.
pub fn extend<T: DeepView>(list: &mut Vec<T>, more: Vec<T>)
    ensures
        final(list).deep_view() == old(list).deep_view() + more.deep_view(),
{
    let ghost before = list.deep_view();
    let ghost added = more@;
    let mut more = more;
    list.append(&mut more);
    proof {
        assert(list.deep_view() =~= before + Seq::new(added.len(), |i: int| added[i].deep_view()));
    }
}

/// Appends `item` to `list` where there is one.
pub fn push_some<T: DeepView>(list: &mut Vec<T>, item: Option<T>)
    ensures
        final(list).deep_view() == with_some(old(list).deep_view(), item.deep_view()),
{
    match item {
        Some(value) => push(list, value),
        None => {},
    }
}

/// Takes the first item of `list`, where it has one.
pub fn pop_first<T: DeepView>(list: &mut Vec<T>) -> (r: Option<T>)
    ensures
        match r {
            Some(item) => {
                &&& old(list).deep_view().len() > 0
                &&& item.deep_view() == old(list).deep_view().first()
                &&& final(list).deep_view() == old(list).deep_view().drop_first()
            },
            None => {
                &&& old(list).deep_view().len() == 0
                &&& final(list).deep_view() == old(list).deep_view()
            },
        },
{
    if list.len() == 0 {
        return None;
    }
    let ghost before = list.deep_view();
    let item = list.remove(0);
    proof {
        assert(list.deep_view() =~= before.drop_first());
    }
    Some(item)
}

/// `list` with `item` appended where there is one.
pub open spec fn with_some<V>(list: Seq<V>, item: Option<V>) -> Seq<V> {
    match item {
        Some(value) => list.push(value),
        None => list,
    }
}

/// An empty list.
pub fn empty<T: DeepView>() -> (r: Vec<T>)
    ensures
        r.deep_view() == Seq::<T::V>::empty(),
{
    let r: Vec<T> = Vec::new();
    proof {
        assert(r.deep_view() =~= Seq::<T::V>::empty());
    }
    r
}

/// A list of one item.
pub fn one<T: DeepView>(item: T) -> (r: Vec<T>)
    ensures
        r.deep_view() == seq![item.deep_view()],
{
    let mut r: Vec<T> = Vec::new();
    r.push(item);
    proof {
        assert(r.deep_view() =~= seq![item.deep_view()]);
    }
    r
}

/// A list of two items.
pub fn two<T: DeepView>(a: T, b: T) -> (r: Vec<T>)
    ensures
        r.deep_view() == seq![a.deep_view(), b.deep_view()],
{
    let mut r: Vec<T> = Vec::new();
    r.push(a);
    r.push(b);
    proof {
        assert(r.deep_view() =~= seq![a.deep_view(), b.deep_view()]);
    }
    r
}

}
