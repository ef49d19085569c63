use crate::array::{Array, ColumnView, Scalar};
use crate::dtype::DType;
use vstd::arithmetic::div_mod::{lemma_mod_multiples_vanish, lemma_small_mod};
use vstd::prelude::*;

verus! {

/// The least value of the integer type with tag `t`.
pub open spec fn min_of(t: DType) -> int {
    if t.is_signed() {
        -(t.modulus() / 2)
    } else {
        0
    }
}

/// The greatest value of the integer type with tag `t`.
pub open spec fn max_of(t: DType) -> int {
    if t.is_signed() {
        t.modulus() / 2 - 1
    } else {
        t.modulus() - 1
    }
}

/// The integer `v` converted to the integer type with tag `t` as Rust's `as`
/// converts: the value of that type that differs from `v` by a multiple of
/// the type's modulus.
pub open spec fn wrap(v: int, t: DType) -> int {
    let m: int = v % t.modulus();
    if t.is_signed() && 2 * m >= t.modulus() {
        m - t.modulus()
    } else {
        m
    }
}

/// Whether elements of a column with tag `from` can be converted to elements
/// of a column with tag `to`: between integer types, and from a type to
/// itself.
pub open spec fn coercible(from: DType, to: DType) -> bool {
    from == to || (from.is_integer() && to.is_integer())
}

/// What the element `s` of a column with tag `from` is in a column with tag
/// `to`.
pub open spec fn coerce(s: Scalar, from: DType, to: DType) -> Scalar {
    if from == to {
        s
    } else {
        match s {
            Scalar::Int(v) => Scalar::Int(wrap(v, to)),
            _ => s,
        }
    }
}

/// `wrap` gives a value of the type, keeps a value that the type has, and
/// changes any other by a multiple of the modulus.
pub proof fn lemma_wrap(v: int, t: DType)
    requires
        t.is_integer(),
    ensures
        min_of(t) <= wrap(v, t) <= max_of(t),
        (wrap(v, t) - v) % t.modulus() == 0,
        min_of(t) <= v <= max_of(t) ==> wrap(v, t) == v,
{
    let n: int = t.modulus();
    let m: int = v % n;
    assert(v == n * (v / n) + m) by {
        vstd::arithmetic::div_mod::lemma_fundamental_div_mod(v, n);
    }
    if t.is_signed() && 2 * m >= n {
        lemma_mod_multiples_vanish(-(v / n) - 1, 0, n);
        assert(n * (-(v / n) - 1) + 0 == m - n - v) by (nonlinear_arith)
            requires
                v == n * (v / n) + m,
        ;
    } else {
        lemma_mod_multiples_vanish(-(v / n), 0, n);
        assert(n * (-(v / n)) + 0 == m - v) by (nonlinear_arith)
            requires
                v == n * (v / n) + m,
        ;
    }
    if min_of(t) <= v <= max_of(t) {
        if v >= 0 {
            lemma_small_mod(v as nat, n as nat);
        } else {
            lemma_mod_multiples_vanish(1, v, n);
            lemma_small_mod((n + v) as nat, n as nat);
            assert(n * 1 + v == n + v);
        }
    }
}

/// Whether this library converts elements of type `from` to type `to`.
pub fn can_coerce(from: DType, to: DType) -> (res: bool)
    ensures
        res == coercible(from, to),
{
    from == to || (from.is_int() && to.is_int())
}

/// The modulus of an integer element type.
fn modulus_of(t: DType) -> (res: u128)
    requires
        t.is_integer(),
    ensures
        res == t.modulus(),
{
    match t {
        DType::Int8 | DType::UInt8 => 0x100,
        DType::Int16 | DType::UInt16 => 0x1_0000,
        DType::Int32 | DType::UInt32 => 0x1_0000_0000,
        _ => 0x1_0000_0000_0000_0000,
    }
}

/// Whether an integer element type is signed.
fn signed(t: DType) -> (res: bool)
    ensures
        res == t.is_signed(),
{
    match t {
        DType::Int8 | DType::Int16 | DType::Int32 | DType::Int64 => true,
        _ => false,
    }
}

/// `v` converted to the integer type with tag `to`.
fn wrap_to(v: i128, to: DType) -> (res: i128)
    requires
        to.is_integer(),
        -0x8000_0000_0000_0000 <= v < 0x1_0000_0000_0000_0000,
    ensures
        res == wrap(v as int, to),
        min_of(to) <= res <= max_of(to),
{
    let n: u128 = modulus_of(to);
    let u: u128 = if v < 0 {
        (v + 0x1_0000_0000_0000_0000) as u128
    } else {
        v as u128
    };
    let m: u128 = u % n;
    proof {
        lemma_wrap(v as int, to);
        if v < 0 {
            let q: int = 0x1_0000_0000_0000_0000int / (n as int);
            assert(0x1_0000_0000_0000_0000int == (n as int) * q);
            lemma_mod_multiples_vanish(q, v as int, n as int);
        }
        assert(m as int == (v as int) % (n as int));
    }
    if signed(to) && m >= n / 2 {
        m as i128 - n as i128
    } else {
        m as i128
    }
}

/// The integer at position `i` of a column of integers.
fn int_at(col: &Array, i: usize) -> (res: i128)
    requires
        col.tag().is_integer(),
        i < col.cells().len(),
    ensures
        col.cells()[i as int] == Scalar::Int(res as int),
        min_of(col.tag()) <= res <= max_of(col.tag()),
{
    match col {
        Array::Int8(d) => *d.at(i) as i128,
        Array::Int16(d) => *d.at(i) as i128,
        Array::Int32(d) => *d.at(i) as i128,
        Array::Int64(d) => *d.at(i) as i128,
        Array::UInt8(d) => *d.at(i) as i128,
        Array::UInt16(d) => *d.at(i) as i128,
        Array::UInt32(d) => *d.at(i) as i128,
        Array::UInt64(d) => *d.at(i) as i128,
        _ => 0,
    }
}

/// Appends the integer `v` to a column of integers that has it as a value.
fn push_int(target: &mut Array, v: i128)
    requires
        old(target).tag().is_integer(),
        min_of(old(target).tag()) <= v <= max_of(old(target).tag()),
    ensures
        final(target)@ == (ColumnView {
            dtype: old(target)@.dtype,
            cells: old(target)@.cells.push(Scalar::Int(v as int)),
        }),
{
    match target {
        Array::Int8(d) => {
            d.push(v as i8);
        },
        Array::Int16(d) => {
            d.push(v as i16);
        },
        Array::Int32(d) => {
            d.push(v as i32);
        },
        Array::Int64(d) => {
            d.push(v as i64);
        },
        Array::UInt8(d) => {
            d.push(v as u8);
        },
        Array::UInt16(d) => {
            d.push(v as u16);
        },
        Array::UInt32(d) => {
            d.push(v as u32);
        },
        Array::UInt64(d) => {
            d.push(v as u64);
        },
        _ => {},
    }
    assert(target@.cells =~= old(target)@.cells.push(Scalar::Int(v as int)));
}

/// Appends to `target` the element of `source` at position `i`, converted to
/// the element type of `target`.
pub(crate) fn push_coerced(target: &mut Array, source: &Array, i: usize)
    requires
        coercible(source.tag(), old(target).tag()),
        i < source.cells().len(),
    ensures
        final(target)@ == (ColumnView {
            dtype: old(target)@.dtype,
            cells: old(target)@.cells.push(
                coerce(source.cells()[i as int], source.tag(), old(target).tag()),
            ),
        }),
{
    let to = target.dtype_tag();
    if source.dtype_tag().is_int() {
        let v: i128 = int_at(source, i);
        if to == source.dtype_tag() {
            push_int(target, v);
        } else {
            push_int(target, wrap_to(v, to));
        }
    } else {
        match source {
            Array::Float32(s) => match target {
                Array::Float32(d) => {
                    d.push(*s.at(i));
                },
                _ => {},
            },
            Array::Float64(s) => match target {
                Array::Float64(d) => {
                    d.push(*s.at(i));
                },
                _ => {},
            },
            Array::Str(s) => match target {
                Array::Str(d) => {
                    d.push(s.at(i).clone());
                },
                _ => {},
            },
            _ => {},
        }
        assert(target@.cells =~= old(target)@.cells.push(source.cells()[i as int]));
    }
}

} // verus!
