//! Algebraic and textual laws of vectors, proved over `i64` coordinates, whose
//! arithmetic is exact wherever it does not overflow.
use crate::{
    comma_count, comma_free, cross_of, cross_req, framed_text, inner_of, is_framed, lerp_of,
    lerp_req, opening, separator, splits_into, Vector3,
};
use vstd::prelude::*;
use vstd::std_specs::ops::AddSpec;

verus! {

broadcast use Vector3::lemma_from_view;

/// Vector addition is associative: `(a + b) + c == a + (b + c)` whenever
/// neither side overflows.
pub proof fn lemma_add_associative(a: Vector3<i64>, b: Vector3<i64>, c: Vector3<i64>)
    requires
        a.add_req(b),
        a.add_spec(b).add_req(c),
        b.add_req(c),
        a.add_req(b.add_spec(c)),
    ensures
        a.add_spec(b).add_spec(c) == a.add_spec(b.add_spec(c)),
{
}

/// Vector addition is commutative: `a + b == b + a` whenever it does not
/// overflow.
pub proof fn lemma_add_commutative(a: Vector3<i64>, b: Vector3<i64>)
    requires
        a.add_req(b),
    ensures
        b.add_req(a),
        a.add_spec(b) == b.add_spec(a),
{
}

/// The cross product is anti-commutative: every coordinate of `a × b` is the
/// negation of the same coordinate of `b × a`.
pub proof fn lemma_cross_anticommutative(a: Vector3<i64>, b: Vector3<i64>)
    requires
        cross_req(a@, b@),
        cross_req(b@, a@),
    ensures
        cross_of(a@, b@).0 == -cross_of(b@, a@).0,
        cross_of(a@, b@).1 == -cross_of(b@, a@).1,
        cross_of(a@, b@).2 == -cross_of(b@, a@).2,
{
    assert(a@.1 * b@.2 == b@.2 * a@.1) by (nonlinear_arith);
    assert(a@.2 * b@.1 == b@.1 * a@.2) by (nonlinear_arith);
    assert(a@.2 * b@.0 == b@.0 * a@.2) by (nonlinear_arith);
    assert(a@.0 * b@.2 == b@.2 * a@.0) by (nonlinear_arith);
    assert(a@.0 * b@.1 == b@.1 * a@.0) by (nonlinear_arith);
    assert(a@.1 * b@.0 == b@.0 * a@.1) by (nonlinear_arith);
}

/// The cross product of a vector with itself is the zero vector.
pub proof fn lemma_cross_self_is_zero(a: Vector3<i64>)
    requires
        cross_req(a@, a@),
    ensures
        cross_of(a@, a@) == (0i64, 0i64, 0i64),
{
    assert(a@.1 * a@.2 == a@.2 * a@.1) by (nonlinear_arith);
    assert(a@.2 * a@.0 == a@.0 * a@.2) by (nonlinear_arith);
    assert(a@.0 * a@.1 == a@.1 * a@.0) by (nonlinear_arith);
}

/// Interpolating by zero gives the start and interpolating by one gives the
/// end, coordinate by coordinate.
pub proof fn lemma_lerp_ends(a: Vector3<i64>, b: Vector3<i64>)
    requires
        lerp_req(a@.0, b@.0, 0i64),
        lerp_req(a@.1, b@.1, 0i64),
        lerp_req(a@.2, b@.2, 0i64),
        lerp_req(a@.0, b@.0, 1i64),
        lerp_req(a@.1, b@.1, 1i64),
        lerp_req(a@.2, b@.2, 1i64),
    ensures
        (lerp_of(a@.0, b@.0, 0i64), lerp_of(a@.1, b@.1, 0i64), lerp_of(a@.2, b@.2, 0i64)) == a@,
        (lerp_of(a@.0, b@.0, 1i64), lerp_of(a@.1, b@.1, 1i64), lerp_of(a@.2, b@.2, 1i64)) == b@,
{
}

/// The commas of `s + t` are those of `s` and those of `t`.
proof fn lemma_comma_count_concat(s: Seq<char>, t: Seq<char>)
    ensures
        comma_count(s + t) == comma_count(s) + comma_count(t),
    decreases t.len(),
{
    if t.len() > 0 {
        assert((s + t).drop_last() =~= s + t.drop_last());
        lemma_comma_count_concat(s, t.drop_last());
    } else {
        assert(s + t =~= s);
    }
}

/// A text without commas counts none.
proof fn lemma_comma_free_count(s: Seq<char>)
    requires
        comma_free(s),
    ensures
        comma_count(s) == 0,
    decreases s.len(),
{
    if s.len() > 0 {
        lemma_comma_free_count(s.drop_last());
    }
}

/// A text has at most one way of being three comma-free fields joined by
/// commas.
pub proof fn lemma_splits_unique(
    s: Seq<char>,
    a: Seq<char>,
    b: Seq<char>,
    c: Seq<char>,
    a2: Seq<char>,
    b2: Seq<char>,
    c2: Seq<char>,
)
    requires
        splits_into(s, a, b, c),
        splits_into(s, a2, b2, c2),
    ensures
        a == a2 && b == b2 && c == c2,
{
    if a.len() < a2.len() {
        assert(s[a.len() as int] == ',');
        assert(s[a.len() as int] == a2[a.len() as int]);
    }
    if a2.len() < a.len() {
        assert(s[a2.len() as int] == ',');
        assert(s[a2.len() as int] == a[a2.len() as int]);
    }
    assert(a =~= s.subrange(0, a.len() as int));
    assert(a2 =~= s.subrange(0, a.len() as int));
    let o: int = a.len() as int + 1;
    let m: int = b.len() as int;
    if b.len() < b2.len() {
        assert(s[o + m] == ',');
        assert(s[o + m] == b2[b.len() as int]);
    }
    if b2.len() < b.len() {
        assert(s[o + b2.len() as int] == ',');
        assert(s[o + b2.len() as int] == b[b2.len() as int]);
    }
    assert(b =~= s.subrange(o, o + m));
    assert(b2 =~= s.subrange(o, o + m));
    assert(c =~= s.subrange(o + m + 1, s.len() as int));
    assert(c2 =~= s.subrange(o + m + 1, s.len() as int));
}

/// A blank put before a comma-free text keeps it comma-free.
proof fn lemma_blank_comma_free(y: Seq<char>)
    requires
        comma_free(y),
    ensures
        comma_free(seq![' '] + y),
{
    let by = seq![' '] + y;
    assert forall|k: int| 0 <= k < by.len() implies by[k] != ',' by {
        if k > 0 {
            assert(by[k] == y[k - 1]);
        }
    }
}

/// Three comma-free fields joined by commas hold two commas.
proof fn lemma_joined_count(a: Seq<char>, b: Seq<char>, c: Seq<char>)
    requires
        comma_free(a),
        comma_free(b),
        comma_free(c),
    ensures
        comma_count(a + seq![','] + b + seq![','] + c) == 2,
{
    lemma_comma_free_count(a);
    lemma_comma_free_count(b);
    lemma_comma_free_count(c);
    assert(comma_count(seq![',']) == 1) by {
        reveal_with_fuel(comma_count, 2);
        assert(seq![','].drop_last() =~= Seq::<char>::empty());
    }
    lemma_comma_count_concat(a, seq![',']);
    lemma_comma_count_concat(a + seq![','], b);
    lemma_comma_count_concat(a + seq![','] + b, seq![',']);
    lemma_comma_count_concat(a + seq![','] + b + seq![','], c);
}

/// Cutting the text that `format_fields` writes gives back the rendered
/// coordinates, each after the blank of its separator: for comma-free
/// renderings `x`, `y`, `z`, not all empty, the text is framed, holds two
/// commas, and its only fields are `x`, ` y` and ` z`.
pub proof fn lemma_split_of_format(x: Seq<char>, y: Seq<char>, z: Seq<char>)
    requires
        comma_free(x),
        comma_free(y),
        comma_free(z),
        x.len() + y.len() + z.len() >= 1,
    ensures
        is_framed(framed_text(x, y, z)),
        comma_count(inner_of(framed_text(x, y, z))) == 2,
        splits_into(inner_of(framed_text(x, y, z)), x, seq![' '] + y, seq![' '] + z),
        forall|a: Seq<char>, b: Seq<char>, c: Seq<char>|
            splits_into(inner_of(framed_text(x, y, z)), a, b, c) ==> a == x && b == seq![' ']
                + y && c == seq![' '] + z,
{
    let t = framed_text(x, y, z);
    let by = seq![' '] + y;
    let bz = seq![' '] + z;
    assert(t.subrange(0, 8) =~= opening());
    assert(inner_of(t) =~= x + seq![','] + by + seq![','] + bz);
    lemma_blank_comma_free(y);
    lemma_blank_comma_free(z);
    lemma_joined_count(x, by, bz);
    assert forall|a: Seq<char>, b: Seq<char>, c: Seq<char>|
        splits_into(inner_of(t), a, b, c) implies a == x && b == by && c == bz by {
        lemma_splits_unique(inner_of(t), a, b, c, x, by, bz);
    }
}

} // verus!
