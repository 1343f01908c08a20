//! When two types are the same type. Handles name objects, and one type
//! can be made many times over; what a union holds once, and what
//! `type_is_equal` answers, goes by what the types are made of.
//!
//! An alias is the type it stands for. Scalar types are the same when
//! they are the same scalar; array, map and signature types when their
//! parts are the same; unions when each holds every variant of the other.
//! Tableshapes, enums, userdata types and primitive types are named
//! types: each is the same as itself alone.

use vstd::prelude::*;
use crate::bt_object::Type;
use crate::context::Context;
use crate::context::ContextView;
use crate::heap::Body;
use crate::heap::TypeBody;
use crate::heap::TypeModel;

verus! {

impl ContextView {
    /// Whether `a` and `b` are the same type, compared through at most
    /// `fuel` levels of parts and aliases.
    pub open spec fn same_type_in(self, a: Type, b: Type, fuel: nat) -> bool
        decreases fuel, 0nat, 0nat,
    {
        if a == b {
            true
        } else if fuel == 0 {
            false
        } else {
            let rest = (fuel - 1) as nat;
            match (self.type_at(a.ptr), self.type_at(b.ptr)) {
                (Some(TypeModel::Alias { target, .. }), _) => self.same_type_in(target, b, rest),
                (_, Some(TypeModel::Alias { target, .. })) => self.same_type_in(a, target, rest),
                (Some(TypeModel::Scalar(x)), Some(TypeModel::Scalar(y))) => x == y,
                (
                    Some(TypeModel::ArrayOf { element: x }),
                    Some(TypeModel::ArrayOf { element: y }),
                ) => self.same_type_in(x, y, rest),
                (
                    Some(TypeModel::MapOf { key: k1, value: v1 }),
                    Some(TypeModel::MapOf { key: k2, value: v2 }),
                ) => self.same_type_in(k1, k2, rest) && self.same_type_in(v1, v2, rest),
                (
                    Some(TypeModel::Signature { params: p1, ret: r1, vararg: va1 }),
                    Some(TypeModel::Signature { params: p2, ret: r2, vararg: va2 }),
                ) => {
                    &&& p1.len() == p2.len()
                    &&& self.same_types_in(p1, p2, p1.len(), rest)
                    &&& self.same_type_in(r1, r2, rest)
                    &&& match (va1, va2) {
                        (None, None) => true,
                        (Some(x), Some(y)) => self.same_type_in(x, y, rest),
                        _ => false,
                    }
                },
                (
                    Some(TypeModel::Union { variants: v1 }),
                    Some(TypeModel::Union { variants: v2 }),
                ) => self.covered_in(v1, v2, v1.len(), rest) && self.covered_in(
                    v2,
                    v1,
                    v2.len(),
                    rest,
                ),
                _ => false,
            }
        }
    }

    /// Whether each of the first `n` of `xs` is the same type as the one
    /// of `ys` in the same place.
    pub open spec fn same_types_in(self, xs: Seq<Type>, ys: Seq<Type>, n: nat, fuel: nat) -> bool
        decreases fuel, 1nat, n,
    {
        if n == 0 {
            true
        } else {
            self.same_types_in(xs, ys, (n - 1) as nat, fuel) && self.same_type_in(
                xs[n - 1],
                ys[n - 1],
                fuel,
            )
        }
    }

    /// Whether one of the first `m` of `ys` is the same type as `t`.
    pub open spec fn member_in(self, t: Type, ys: Seq<Type>, m: nat, fuel: nat) -> bool
        decreases fuel, 1nat, m,
    {
        if m == 0 {
            false
        } else {
            self.member_in(t, ys, (m - 1) as nat, fuel) || self.same_type_in(t, ys[m - 1], fuel)
        }
    }

    /// Whether `ys` holds each of the first `n` of `xs`.
    pub open spec fn covered_in(self, xs: Seq<Type>, ys: Seq<Type>, n: nat, fuel: nat) -> bool
        decreases fuel, 2nat, n,
    {
        if n == 0 {
            true
        } else {
            self.covered_in(xs, ys, (n - 1) as nat, fuel) && self.member_in(
                xs[n - 1],
                ys,
                ys.len(),
                fuel,
            )
        }
    }

    /// Whether `a` and `b` are the same type. Types are compared through
    /// as many levels as the heap has objects.
    pub open spec fn same_type(self, a: Type, b: Type) -> bool {
        self.same_type_in(a, b, self.heap.len())
    }

    /// Whether `types` holds a type that is the same type as `t`.
    pub open spec fn holds_type(self, types: Seq<Type>, t: Type) -> bool {
        self.member_in(t, types, types.len(), self.heap.len())
    }

    /// `types` without the later occurrences of any type: each type stays
    /// where it first stood.
    pub open spec fn without_repeats(self, types: Seq<Type>) -> Seq<Type>
        decreases types.len(),
    {
        if types.len() == 0 {
            Seq::empty()
        } else {
            let before = self.without_repeats(types.drop_last());
            if self.holds_type(before, types.last()) {
                before
            } else {
                before.push(types.last())
            }
        }
    }

    /// `types` without the types that are the same type as `dropped`, in
    /// the same order.
    pub open spec fn without_type(self, types: Seq<Type>, dropped: Type) -> Seq<Type>
        decreases types.len(),
    {
        if types.len() == 0 {
            Seq::empty()
        } else if self.same_type(types.last(), dropped) {
            self.without_type(types.drop_last(), dropped)
        } else {
            self.without_type(types.drop_last(), dropped).push(types.last())
        }
    }
}

impl Context {
    /// Whether `a` and `b` are the same type, compared through at most
    /// `fuel` levels of parts and aliases.
    pub fn same_type_in(&self, a: Type, b: Type, fuel: usize) -> (same: bool)
        ensures
            same == self@.same_type_in(a, b, fuel as nat),
        decreases fuel, 0nat, 0nat,
    {
        if a == b {
            return true;
        }
        if fuel == 0 {
            return false;
        }
        let rest: usize = fuel - 1;
        let left = match self.slot(a.ptr) {
            Some(i) => match &self.heap[i].body {
                Body::Type(body) => Some(body),
                _ => None,
            },
            None => None,
        };
        let right = match self.slot(b.ptr) {
            Some(j) => match &self.heap[j].body {
                Body::Type(body) => Some(body),
                _ => None,
            },
            None => None,
        };
        assert(self@.type_at(a.ptr) == (match left {
            Some(body) => Some(body@),
            None => None,
        }));
        assert(self@.type_at(b.ptr) == (match right {
            Some(body) => Some(body@),
            None => None,
        }));
        match left {
            Some(TypeBody::Alias { target, .. }) => {
                return self.same_type_in(*target, b, rest);
            },
            _ => {},
        }
        match right {
            Some(TypeBody::Alias { target, .. }) => {
                return self.same_type_in(a, *target, rest);
            },
            _ => {},
        }
        match left {
            Some(TypeBody::Scalar(x)) => match right {
                Some(TypeBody::Scalar(y)) => *x == *y,
                _ => false,
            },
            Some(TypeBody::ArrayOf { element: x }) => match right {
                Some(TypeBody::ArrayOf { element: y }) => self.same_type_in(*x, *y, rest),
                _ => false,
            },
            Some(TypeBody::MapOf { key: k1, value: v1 }) => match right {
                Some(TypeBody::MapOf { key: k2, value: v2 }) => self.same_type_in(*k1, *k2, rest)
                    && self.same_type_in(*v1, *v2, rest),
                _ => false,
            },
            Some(TypeBody::Signature { params: p1, ret: r1, vararg: va1 }) => match right {
                Some(TypeBody::Signature { params: p2, ret: r2, vararg: va2 }) => {
                    if p1.len() != p2.len() {
                        return false;
                    }
                    if !self.same_types_in(p1, p2, p1.len(), rest) {
                        return false;
                    }
                    if !self.same_type_in(*r1, *r2, rest) {
                        return false;
                    }
                    match va1 {
                        None => va2.is_none(),
                        Some(x) => match va2 {
                            Some(y) => self.same_type_in(*x, *y, rest),
                            None => false,
                        },
                    }
                },
                _ => false,
            },
            Some(TypeBody::Union { variants: v1 }) => match right {
                Some(TypeBody::Union { variants: v2 }) => self.covered_in(v1, v2, v1.len(), rest)
                    && self.covered_in(v2, v1, v2.len(), rest),
                _ => false,
            },
            _ => false,
        }
    }

    /// Whether each of the first `n` of `xs` is the same type as the one
    /// of `ys` in the same place.
    pub fn same_types_in(&self, xs: &Vec<Type>, ys: &Vec<Type>, n: usize, fuel: usize) -> (same:
        bool)
        requires
            n <= xs.len(),
            n <= ys.len(),
        ensures
            same == self@.same_types_in(xs@, ys@, n as nat, fuel as nat),
        decreases fuel, 1nat, n,
    {
        if n == 0 {
            true
        } else {
            self.same_types_in(xs, ys, n - 1, fuel) && self.same_type_in(xs[n - 1], ys[n - 1], fuel)
        }
    }

    /// Whether one of the first `m` of `ys` is the same type as `t`.
    pub fn member_in(&self, t: Type, ys: &Vec<Type>, m: usize, fuel: usize) -> (member: bool)
        requires
            m <= ys.len(),
        ensures
            member == self@.member_in(t, ys@, m as nat, fuel as nat),
        decreases fuel, 1nat, m,
    {
        if m == 0 {
            false
        } else {
            self.member_in(t, ys, m - 1, fuel) || self.same_type_in(t, ys[m - 1], fuel)
        }
    }

    /// Whether `ys` holds each of the first `n` of `xs`.
    pub fn covered_in(&self, xs: &Vec<Type>, ys: &Vec<Type>, n: usize, fuel: usize) -> (covered:
        bool)
        requires
            n <= xs.len(),
        ensures
            covered == self@.covered_in(xs@, ys@, n as nat, fuel as nat),
        decreases fuel, 2nat, n,
    {
        if n == 0 {
            true
        } else {
            self.covered_in(xs, ys, n - 1, fuel) && self.member_in(xs[n - 1], ys, ys.len(), fuel)
        }
    }

    /// Whether `a` and `b` are the same type.
    pub fn type_is_equal(&self, a: Type, b: Type) -> (equal: bool)
        ensures
            equal == self@.same_type(a, b),
    {
        self.same_type_in(a, b, self.heap.len())
    }

    /// Whether `types` holds a type that is the same type as `t`.
    pub fn holds_type(&self, types: &Vec<Type>, t: Type) -> (held: bool)
        ensures
            held == self@.holds_type(types@, t),
    {
        self.member_in(t, types, types.len(), self.heap.len())
    }

    /// `types` without the later occurrences of any type.
    pub fn without_repeats(&self, types: &[Type]) -> (kept: Vec<Type>)
        ensures
            kept@ == self@.without_repeats(types@),
    {
        let mut kept: Vec<Type> = Vec::new();
        let mut i: usize = 0;
        while i < types.len()
            invariant
                i <= types.len(),
                kept@ == self@.without_repeats(types@.subrange(0, i as int)),
            decreases types.len() - i,
        {
            proof {
                assert(types@.subrange(0, i + 1).drop_last() =~= types@.subrange(0, i as int));
            }
            if !self.holds_type(&kept, types[i]) {
                kept.push(types[i]);
            }
            i += 1;
        }
        proof {
            assert(types@.subrange(0, types.len() as int) =~= types@);
        }
        kept
    }

    /// `types` without the types that are the same type as `dropped`.
    pub fn without_type(&self, types: &Vec<Type>, dropped: Type) -> (kept: Vec<Type>)
        ensures
            kept@ == self@.without_type(types@, dropped),
    {
        let mut kept: Vec<Type> = Vec::new();
        let mut i: usize = 0;
        while i < types.len()
            invariant
                i <= types.len(),
                kept@ == self@.without_type(types@.subrange(0, i as int), dropped),
            decreases types.len() - i,
        {
            proof {
                assert(types@.subrange(0, i + 1).drop_last() =~= types@.subrange(0, i as int));
            }
            if !self.type_is_equal(types[i], dropped) {
                kept.push(types[i]);
            }
            i += 1;
        }
        proof {
            assert(types@.subrange(0, types.len() as int) =~= types@);
        }
        kept
    }
}

/// Every type is the same type as itself, and a list holds each type
/// that stands in it.
pub proof fn lemma_same_type_is_reflexive(ctx: ContextView, t: Type, types: Seq<Type>, at: int)
    requires
        0 <= at < types.len(),
    ensures
        ctx.same_type(t, t),
        ctx.holds_type(types, types[at]),
{
    lemma_member_at(ctx, types, at, types.len(), ctx.heap.len());
}

/// A type that stands among the first `m` of a list is held by them.
pub proof fn lemma_member_at(ctx: ContextView, types: Seq<Type>, at: int, m: nat, fuel: nat)
    requires
        0 <= at < m <= types.len(),
    ensures
        ctx.member_in(types[at], types, m, fuel),
    decreases m,
{
    if at < m - 1 {
        lemma_member_at(ctx, types, at, (m - 1) as nat, fuel);
    } else {
        assert(ctx.same_type_in(types[at], types[at], fuel));
    }
}

/// A list without repeats holds no type twice: no type of it is the same
/// type as one that stands before it.
pub proof fn lemma_without_repeats_holds_once(ctx: ContextView, types: Seq<Type>, at: int)
    requires
        0 <= at < ctx.without_repeats(types).len(),
    ensures
        !ctx.holds_type(ctx.without_repeats(types).subrange(0, at), ctx.without_repeats(types)[at]),
    decreases types.len(),
{
    if types.len() > 0 {
        let before = ctx.without_repeats(types.drop_last());
        let kept = ctx.without_repeats(types);
        if ctx.holds_type(before, types.last()) {
            lemma_without_repeats_holds_once(ctx, types.drop_last(), at);
        } else if at < before.len() {
            lemma_without_repeats_holds_once(ctx, types.drop_last(), at);
            assert(kept.subrange(0, at) =~= before.subrange(0, at));
        } else {
            assert(kept.subrange(0, at) =~= before);
        }
    }
}

} // verus!
