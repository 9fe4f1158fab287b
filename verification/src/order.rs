//! The total order over dynamic values.
//!
//! Values are ordered first by variant, then structurally within a
//! variant: sequences element-wise, maps by their canonical entry order,
//! enumerations by name and then payload. This order is total — NaN float
//! patterns included — and is what map canonicalization rests on.

use vstd::prelude::*;
use crate::typing::{AnyValue, Val, Integer, model_seq, model_entries, lemma_model_seq, lemma_model_entries};
use crate::typing::float::float_key;

verus! {

/// The outcome of a three-way comparison under the total order.
#[derive(Debug, Clone, Copy, PartialEq, Eq, Structural)]
pub enum Cmp {
    Lt,
    Eq,
    Gt,
}

impl Cmp {
    /// The outcome of the comparison with its sides exchanged.
    pub open spec fn flip(self) -> Cmp {
        match self {
            Cmp::Lt => Cmp::Gt,
            Cmp::Eq => Cmp::Eq,
            Cmp::Gt => Cmp::Lt,
        }
    }
}

/// Three-way comparison of mathematical integers.
pub open spec fn cmp_int(a: int, b: int) -> Cmp {
    if a < b {
        Cmp::Lt
    } else if a == b {
        Cmp::Eq
    } else {
        Cmp::Gt
    }
}

/// Three-way comparison of booleans: false sorts before true.
pub open spec fn cmp_bool(a: bool, b: bool) -> Cmp {
    cmp_int(if a { 1int } else { 0int }, if b { 1int } else { 0int })
}

/// Three-way comparison of unified integers: the unsigned sub-range sorts
/// before the signed one, and each sub-range sorts numerically.
pub open spec fn cmp_integer(a: Integer, b: Integer) -> Cmp {
    match (a, b) {
        (Integer::UnsignedInteger(x), Integer::UnsignedInteger(y)) => cmp_int(x as int, y as int),
        (Integer::UnsignedInteger(_), Integer::SignedInteger(_)) => Cmp::Lt,
        (Integer::SignedInteger(_), Integer::UnsignedInteger(_)) => Cmp::Gt,
        (Integer::SignedInteger(x), Integer::SignedInteger(y)) => cmp_int(x as int, y as int),
    }
}

/// Lexicographic comparison of character sequences by code point; a
/// proper prefix sorts before its extensions.
pub open spec fn cmp_chars(a: Seq<char>, b: Seq<char>) -> Cmp
    decreases a.len(),
{
    if a.len() == 0 && b.len() == 0 {
        Cmp::Eq
    } else if a.len() == 0 {
        Cmp::Lt
    } else if b.len() == 0 {
        Cmp::Gt
    } else {
        match cmp_int(a[0] as u32 as int, b[0] as u32 as int) {
            Cmp::Eq => cmp_chars(a.drop_first(), b.drop_first()),
            c => c,
        }
    }
}

/// Lexicographic comparison of byte sequences; a proper prefix sorts
/// before its extensions.
pub open spec fn cmp_bytes(a: Seq<u8>, b: Seq<u8>) -> Cmp
    decreases a.len(),
{
    if a.len() == 0 && b.len() == 0 {
        Cmp::Eq
    } else if a.len() == 0 {
        Cmp::Lt
    } else if b.len() == 0 {
        Cmp::Gt
    } else {
        match cmp_int(a[0] as int, b[0] as int) {
            Cmp::Eq => cmp_bytes(a.drop_first(), b.drop_first()),
            c => c,
        }
    }
}

/// Position of each variant in the total order.
pub open spec fn rank(v: Val) -> int {
    match v {
        Val::Bool(_) => 0,
        Val::Int(_) => 1,
        Val::Float(_) => 2,
        Val::Str(_) => 3,
        Val::Bytes(_) => 4,
        Val::Sequence(_) => 5,
        Val::Mapping(_) => 6,
        Val::Enum(_, _) => 7,
        Val::Null => 8,
    }
}

/// The total order over dynamic value models: first by variant rank, then
/// structurally within the variant.
pub open spec fn cmp_val(a: Val, b: Val) -> Cmp
    decreases a, b,
{
    if rank(a) != rank(b) {
        cmp_int(rank(a), rank(b))
    } else {
        match (a, b) {
            (Val::Bool(x), Val::Bool(y)) => cmp_bool(x, y),
            (Val::Int(x), Val::Int(y)) => cmp_integer(x, y),
            (Val::Float(x), Val::Float(y)) => cmp_int(float_key(x), float_key(y)),
            (Val::Str(x), Val::Str(y)) => cmp_chars(x, y),
            (Val::Bytes(x), Val::Bytes(y)) => cmp_bytes(x, y),
            (Val::Sequence(x), Val::Sequence(y)) => cmp_vals(x, y),
            (Val::Mapping(x), Val::Mapping(y)) => cmp_entries(x, y),
            (Val::Enum(nx, vx), Val::Enum(ny, vy)) => match cmp_chars(nx, ny) {
                Cmp::Eq => cmp_val(*vx, *vy),
                c => c,
            },
            _ => Cmp::Eq,
        }
    }
}

/// Lexicographic comparison of sequences of models.
pub open spec fn cmp_vals(a: Seq<Val>, b: Seq<Val>) -> Cmp
    decreases a, b,
{
    if a.len() == 0 && b.len() == 0 {
        Cmp::Eq
    } else if a.len() == 0 {
        Cmp::Lt
    } else if b.len() == 0 {
        Cmp::Gt
    } else {
        match cmp_val(a[0], b[0]) {
            Cmp::Eq => cmp_vals(a.drop_first(), b.drop_first()),
            c => c,
        }
    }
}

/// Comparison of one map entry: key first, then value.
pub open spec fn cmp_entry(a: (Val, Val), b: (Val, Val)) -> Cmp
    decreases a, b,
{
    match cmp_val(a.0, b.0) {
        Cmp::Eq => cmp_val(a.1, b.1),
        c => c,
    }
}

/// Lexicographic comparison of canonical entry sequences.
pub open spec fn cmp_entries(a: Seq<(Val, Val)>, b: Seq<(Val, Val)>) -> Cmp
    decreases a, b,
{
    if a.len() == 0 && b.len() == 0 {
        Cmp::Eq
    } else if a.len() == 0 {
        Cmp::Lt
    } else if b.len() == 0 {
        Cmp::Gt
    } else {
        match cmp_entry(a[0], b[0]) {
            Cmp::Eq => cmp_entries(a.drop_first(), b.drop_first()),
            c => c,
        }
    }
}

/// Every character sequence compares equal to itself.
proof fn lemma_cmp_chars_refl(a: Seq<char>)
    ensures
        cmp_chars(a, a) == Cmp::Eq,
    decreases a.len(),
{
    if a.len() > 0 {
        lemma_cmp_chars_refl(a.drop_first());
    }
}

/// Every byte sequence compares equal to itself.
proof fn lemma_cmp_bytes_refl(a: Seq<u8>)
    ensures
        cmp_bytes(a, a) == Cmp::Eq,
    decreases a.len(),
{
    if a.len() > 0 {
        lemma_cmp_bytes_refl(a.drop_first());
    }
}

/// Every value compares equal to itself.
pub proof fn lemma_cmp_val_refl(a: Val)
    ensures
        cmp_val(a, a) == Cmp::Eq,
    decreases a,
{
    match a {
        Val::Str(x) => lemma_cmp_chars_refl(x),
        Val::Bytes(x) => lemma_cmp_bytes_refl(x),
        Val::Sequence(x) => lemma_cmp_vals_refl(x),
        Val::Mapping(x) => lemma_cmp_entries_refl(x),
        Val::Enum(nx, vx) => {
            lemma_cmp_chars_refl(nx);
            lemma_cmp_val_refl(*vx);
        },
        _ => {},
    }
}

/// Every sequence of values compares equal to itself.
proof fn lemma_cmp_vals_refl(a: Seq<Val>)
    ensures
        cmp_vals(a, a) == Cmp::Eq,
    decreases a,
{
    if a.len() > 0 {
        lemma_cmp_val_refl(a[0]);
        lemma_cmp_vals_refl(a.drop_first());
    }
}

/// Every entry sequence compares equal to itself.
proof fn lemma_cmp_entries_refl(a: Seq<(Val, Val)>)
    ensures
        cmp_entries(a, a) == Cmp::Eq,
    decreases a,
{
    if a.len() > 0 {
        lemma_cmp_val_refl(a[0].0);
        lemma_cmp_val_refl(a[0].1);
        assert(cmp_entry(a[0], a[0]) == Cmp::Eq);
        lemma_cmp_entries_refl(a.drop_first());
    }
}

/// Character sequences that compare equal are equal.
proof fn lemma_cmp_chars_eq(a: Seq<char>, b: Seq<char>)
    requires
        cmp_chars(a, b) == Cmp::Eq,
    ensures
        a == b,
    decreases a.len(),
{
    if a.len() == 0 {
        assert(a =~= b);
    } else {
        lemma_cmp_chars_eq(a.drop_first(), b.drop_first());
        assert(a.drop_first().len() == b.drop_first().len());
        assert(a =~= b) by {
            vstd::utf8::char_u32_cast(a[0], a[0] as u32);
            vstd::utf8::char_u32_cast(b[0], b[0] as u32);
            assert(a[0] == b[0]);
            assert(forall|i: int| 1 <= i < a.len() ==> a[i] == a.drop_first()[i - 1]
                && b[i] == b.drop_first()[i - 1]);
        }
    }
}

/// Byte sequences that compare equal are equal.
proof fn lemma_cmp_bytes_eq(a: Seq<u8>, b: Seq<u8>)
    requires
        cmp_bytes(a, b) == Cmp::Eq,
    ensures
        a == b,
    decreases a.len(),
{
    if a.len() == 0 {
        assert(a =~= b);
    } else {
        lemma_cmp_bytes_eq(a.drop_first(), b.drop_first());
        assert(a.drop_first().len() == b.drop_first().len());
        assert(a =~= b) by {
            assert(a[0] == b[0]);
            assert(forall|i: int| 1 <= i < a.len() ==> a[i] == a.drop_first()[i - 1]
                && b[i] == b.drop_first()[i - 1]);
        }
    }
}

/// Values that compare equal are equal.
pub proof fn lemma_cmp_val_eq(a: Val, b: Val)
    requires
        cmp_val(a, b) == Cmp::Eq,
    ensures
        a == b,
    decreases a, b,
{
    match (a, b) {
        (Val::Float(x), Val::Float(y)) => {
            assert(float_key(x) == float_key(y));
            assert(x == y);
        },
        (Val::Str(x), Val::Str(y)) => lemma_cmp_chars_eq(x, y),
        (Val::Bytes(x), Val::Bytes(y)) => lemma_cmp_bytes_eq(x, y),
        (Val::Sequence(x), Val::Sequence(y)) => {
            lemma_cmp_vals_eq(x, y);
        },
        (Val::Mapping(x), Val::Mapping(y)) => {
            lemma_cmp_entries_eq(x, y);
        },
        (Val::Enum(nx, vx), Val::Enum(ny, vy)) => {
            lemma_cmp_chars_eq(nx, ny);
            lemma_cmp_val_eq(*vx, *vy);
        },
        _ => {},
    }
}

/// Sequences of values that compare equal are equal.
proof fn lemma_cmp_vals_eq(a: Seq<Val>, b: Seq<Val>)
    requires
        cmp_vals(a, b) == Cmp::Eq,
    ensures
        a == b,
    decreases a, b,
{
    if a.len() == 0 {
        assert(a =~= b);
    } else {
        lemma_cmp_val_eq(a[0], b[0]);
        lemma_cmp_vals_eq(a.drop_first(), b.drop_first());
        assert(a.drop_first().len() == b.drop_first().len());
        assert(a =~= b) by {
            assert(forall|i: int| 1 <= i < a.len() ==> a[i] == a.drop_first()[i - 1]
                && b[i] == b.drop_first()[i - 1]);
        }
    }
}

/// Entry sequences that compare equal are equal.
proof fn lemma_cmp_entries_eq(a: Seq<(Val, Val)>, b: Seq<(Val, Val)>)
    requires
        cmp_entries(a, b) == Cmp::Eq,
    ensures
        a == b,
    decreases a, b,
{
    if a.len() == 0 {
        assert(a =~= b);
    } else {
        assert(cmp_entry(a[0], b[0]) == Cmp::Eq);
        lemma_cmp_val_eq(a[0].0, b[0].0);
        lemma_cmp_val_eq(a[0].1, b[0].1);
        lemma_cmp_entries_eq(a.drop_first(), b.drop_first());
        assert(a.drop_first().len() == b.drop_first().len());
        assert(a =~= b) by {
            assert(forall|i: int| 1 <= i < a.len() ==> a[i] == a.drop_first()[i - 1]
                && b[i] == b.drop_first()[i - 1]);
        }
    }
}

/// Exchanging the sides of a character comparison flips the outcome.
proof fn lemma_cmp_chars_flip(a: Seq<char>, b: Seq<char>)
    ensures
        cmp_chars(b, a) == cmp_chars(a, b).flip(),
    decreases a.len(),
{
    if a.len() > 0 && b.len() > 0 {
        lemma_cmp_chars_flip(a.drop_first(), b.drop_first());
    }
}

/// Exchanging the sides of a byte comparison flips the outcome.
proof fn lemma_cmp_bytes_flip(a: Seq<u8>, b: Seq<u8>)
    ensures
        cmp_bytes(b, a) == cmp_bytes(a, b).flip(),
    decreases a.len(),
{
    if a.len() > 0 && b.len() > 0 {
        lemma_cmp_bytes_flip(a.drop_first(), b.drop_first());
    }
}

/// Exchanging the sides of a comparison flips the outcome.
pub proof fn lemma_cmp_val_flip(a: Val, b: Val)
    ensures
        cmp_val(b, a) == cmp_val(a, b).flip(),
    decreases a, b,
{
    if rank(a) == rank(b) {
        match (a, b) {
            (Val::Str(x), Val::Str(y)) => lemma_cmp_chars_flip(x, y),
            (Val::Bytes(x), Val::Bytes(y)) => lemma_cmp_bytes_flip(x, y),
            (Val::Sequence(x), Val::Sequence(y)) => lemma_cmp_vals_flip(x, y),
            (Val::Mapping(x), Val::Mapping(y)) => lemma_cmp_entries_flip(x, y),
            (Val::Enum(nx, vx), Val::Enum(ny, vy)) => {
                lemma_cmp_chars_flip(nx, ny);
                lemma_cmp_val_flip(*vx, *vy);
            },
            _ => {},
        }
    }
}

/// Exchanging the sides of a sequence comparison flips the outcome.
proof fn lemma_cmp_vals_flip(a: Seq<Val>, b: Seq<Val>)
    ensures
        cmp_vals(b, a) == cmp_vals(a, b).flip(),
    decreases a, b,
{
    if a.len() > 0 && b.len() > 0 {
        lemma_cmp_val_flip(a[0], b[0]);
        lemma_cmp_vals_flip(a.drop_first(), b.drop_first());
    }
}

/// Exchanging the sides of an entry comparison flips the outcome.
proof fn lemma_cmp_entries_flip(a: Seq<(Val, Val)>, b: Seq<(Val, Val)>)
    ensures
        cmp_entries(b, a) == cmp_entries(a, b).flip(),
    decreases a, b,
{
    if a.len() > 0 && b.len() > 0 {
        lemma_cmp_val_flip(a[0].0, b[0].0);
        lemma_cmp_val_flip(a[0].1, b[0].1);
        assert(cmp_entry(b[0], a[0]) == cmp_entry(a[0], b[0]).flip());
        lemma_cmp_entries_flip(a.drop_first(), b.drop_first());
    }
}

/// Strict character comparisons chain.
proof fn lemma_cmp_chars_trans(a: Seq<char>, b: Seq<char>, c: Seq<char>)
    requires
        cmp_chars(a, b) == Cmp::Lt,
        cmp_chars(b, c) == Cmp::Lt,
    ensures
        cmp_chars(a, c) == Cmp::Lt,
    decreases a.len(), b.len(), c.len(),
{
    if a.len() > 0 && b.len() > 0 && c.len() > 0 {
        if a[0] as u32 == b[0] as u32 && b[0] as u32 == c[0] as u32 {
            lemma_cmp_chars_trans(a.drop_first(), b.drop_first(), c.drop_first());
        }
    }
}

/// Strict byte comparisons chain.
proof fn lemma_cmp_bytes_trans(a: Seq<u8>, b: Seq<u8>, c: Seq<u8>)
    requires
        cmp_bytes(a, b) == Cmp::Lt,
        cmp_bytes(b, c) == Cmp::Lt,
    ensures
        cmp_bytes(a, c) == Cmp::Lt,
    decreases a.len(), b.len(), c.len(),
{
    if a.len() > 0 && b.len() > 0 && c.len() > 0 {
        if a[0] == b[0] && b[0] == c[0] {
            lemma_cmp_bytes_trans(a.drop_first(), b.drop_first(), c.drop_first());
        }
    }
}

/// Strict comparisons of values chain: the order is transitive.
pub proof fn lemma_cmp_val_trans(a: Val, b: Val, c: Val)
    requires
        cmp_val(a, b) == Cmp::Lt,
        cmp_val(b, c) == Cmp::Lt,
    ensures
        cmp_val(a, c) == Cmp::Lt,
    decreases a, b, c,
{
    if rank(a) == rank(b) && rank(b) == rank(c) {
        match (a, b, c) {
            (Val::Str(x), Val::Str(y), Val::Str(z)) => {
                if cmp_chars(x, y) == Cmp::Eq {
                    lemma_cmp_chars_eq(x, y);
                } else if cmp_chars(y, z) == Cmp::Eq {
                    lemma_cmp_chars_eq(y, z);
                } else {
                    lemma_cmp_chars_trans(x, y, z);
                }
            },
            (Val::Bytes(x), Val::Bytes(y), Val::Bytes(z)) => {
                if cmp_bytes(x, y) == Cmp::Eq {
                    lemma_cmp_bytes_eq(x, y);
                } else if cmp_bytes(y, z) == Cmp::Eq {
                    lemma_cmp_bytes_eq(y, z);
                } else {
                    lemma_cmp_bytes_trans(x, y, z);
                }
            },
            (Val::Sequence(x), Val::Sequence(y), Val::Sequence(z)) => {
                lemma_cmp_vals_trans(x, y, z);
            },
            (Val::Mapping(x), Val::Mapping(y), Val::Mapping(z)) => {
                lemma_cmp_entries_trans(x, y, z);
            },
            (Val::Enum(nx, vx), Val::Enum(ny, vy), Val::Enum(nz, vz)) => {
                match (cmp_chars(nx, ny), cmp_chars(ny, nz)) {
                    (Cmp::Eq, Cmp::Eq) => {
                        lemma_cmp_chars_eq(nx, ny);
                        lemma_cmp_chars_eq(ny, nz);
                        lemma_cmp_val_trans(*vx, *vy, *vz);
                    },
                    (Cmp::Eq, Cmp::Lt) => {
                        lemma_cmp_chars_eq(nx, ny);
                    },
                    (Cmp::Lt, Cmp::Eq) => {
                        lemma_cmp_chars_eq(ny, nz);
                    },
                    (Cmp::Lt, Cmp::Lt) => {
                        lemma_cmp_chars_trans(nx, ny, nz);
                    },
                    _ => {},
                }
            },
            _ => {},
        }
    } else {
        if rank(a) == rank(c) {
            assert(rank(a) <= rank(b) && rank(b) <= rank(c));
        }
    }
}

/// Strict comparisons of value sequences chain.
proof fn lemma_cmp_vals_trans(a: Seq<Val>, b: Seq<Val>, c: Seq<Val>)
    requires
        cmp_vals(a, b) == Cmp::Lt,
        cmp_vals(b, c) == Cmp::Lt,
    ensures
        cmp_vals(a, c) == Cmp::Lt,
    decreases a, b, c,
{
    if a.len() > 0 && b.len() > 0 && c.len() > 0 {
        match (cmp_val(a[0], b[0]), cmp_val(b[0], c[0])) {
            (Cmp::Eq, Cmp::Eq) => {
                lemma_cmp_val_eq(a[0], b[0]);
                lemma_cmp_val_eq(b[0], c[0]);
                lemma_cmp_vals_trans(a.drop_first(), b.drop_first(), c.drop_first());
            },
            (Cmp::Eq, Cmp::Lt) => {
                lemma_cmp_val_eq(a[0], b[0]);
            },
            (Cmp::Lt, Cmp::Eq) => {
                lemma_cmp_val_eq(b[0], c[0]);
            },
            (Cmp::Lt, Cmp::Lt) => {
                lemma_cmp_val_trans(a[0], b[0], c[0]);
            },
            _ => {},
        }
    }
}

/// Strict comparisons of entry sequences chain.
proof fn lemma_cmp_entries_trans(a: Seq<(Val, Val)>, b: Seq<(Val, Val)>, c: Seq<(Val, Val)>)
    requires
        cmp_entries(a, b) == Cmp::Lt,
        cmp_entries(b, c) == Cmp::Lt,
    ensures
        cmp_entries(a, c) == Cmp::Lt,
    decreases a, b, c,
{
    if a.len() > 0 && b.len() > 0 && c.len() > 0 {
        lemma_cmp_entry_trans_cases(a[0], b[0], c[0]);
        if cmp_entry(a[0], b[0]) == Cmp::Eq && cmp_entry(b[0], c[0]) == Cmp::Eq {
            lemma_cmp_entries_trans(a.drop_first(), b.drop_first(), c.drop_first());
        }
    }
}

/// What one entry-level comparison step yields, in every combination met
/// while chaining.
proof fn lemma_cmp_entry_trans_cases(a: (Val, Val), b: (Val, Val), c: (Val, Val))
    ensures
        cmp_entry(a, b) == Cmp::Eq && cmp_entry(b, c) == Cmp::Eq ==> cmp_entry(a, c) == Cmp::Eq,
        cmp_entry(a, b) == Cmp::Eq && cmp_entry(b, c) == Cmp::Lt ==> cmp_entry(a, c) == Cmp::Lt,
        cmp_entry(a, b) == Cmp::Lt && cmp_entry(b, c) == Cmp::Eq ==> cmp_entry(a, c) == Cmp::Lt,
        cmp_entry(a, b) == Cmp::Lt && cmp_entry(b, c) == Cmp::Lt ==> cmp_entry(a, c) == Cmp::Lt,
    decreases a, b, c,
{
    match (cmp_val(a.0, b.0), cmp_val(b.0, c.0)) {
        (Cmp::Eq, Cmp::Eq) => {
            lemma_cmp_val_eq(a.0, b.0);
            lemma_cmp_val_eq(b.0, c.0);
            if cmp_val(a.1, b.1) == Cmp::Eq {
                lemma_cmp_val_eq(a.1, b.1);
            }
            if cmp_val(b.1, c.1) == Cmp::Eq {
                lemma_cmp_val_eq(b.1, c.1);
            }
            if cmp_val(a.1, b.1) == Cmp::Lt && cmp_val(b.1, c.1) == Cmp::Lt {
                lemma_cmp_val_trans(a.1, b.1, c.1);
            }
        },
        (Cmp::Eq, Cmp::Lt) => {
            lemma_cmp_val_eq(a.0, b.0);
        },
        (Cmp::Lt, Cmp::Eq) => {
            lemma_cmp_val_eq(b.0, c.0);
        },
        (Cmp::Lt, Cmp::Lt) => {
            lemma_cmp_val_trans(a.0, b.0, c.0);
        },
        _ => {},
    }
}

/// The order over dynamic values is total: two values compare equal
/// exactly when they are equal, and exchanging the sides flips the
/// outcome, so for any two values exactly one of below, equal and above
/// holds.
pub proof fn lemma_total_order(a: Val, b: Val)
    ensures
        (cmp_val(a, b) == Cmp::Eq) <==> (a == b),
        cmp_val(b, a) == cmp_val(a, b).flip(),
{
    if cmp_val(a, b) == Cmp::Eq {
        lemma_cmp_val_eq(a, b);
    }
    if a == b {
        lemma_cmp_val_refl(a);
    }
    lemma_cmp_val_flip(a, b);
}

/// Comparing from matching prefixes onward gives the same outcome.
proof fn lemma_cmp_chars_skip(a: Seq<char>, b: Seq<char>, i: int)
    requires
        0 <= i <= a.len(),
        i <= b.len(),
        forall|j: int| 0 <= j < i ==> a[j] == b[j],
    ensures
        cmp_chars(a.skip(i), b.skip(i)) == cmp_chars(a, b),
    decreases i,
{
    if i > 0 {
        lemma_cmp_chars_skip(a, b, i - 1);
        assert(a.skip(i - 1).drop_first() =~= a.skip(i));
        assert(b.skip(i - 1).drop_first() =~= b.skip(i));
        assert(a.skip(i - 1)[0] == a[i - 1]);
        assert(b.skip(i - 1)[0] == b[i - 1]);
    } else {
        assert(a.skip(0) =~= a);
        assert(b.skip(0) =~= b);
    }
}

/// Comparing from matching prefixes onward gives the same outcome.
proof fn lemma_cmp_bytes_skip(a: Seq<u8>, b: Seq<u8>, i: int)
    requires
        0 <= i <= a.len(),
        i <= b.len(),
        forall|j: int| 0 <= j < i ==> a[j] == b[j],
    ensures
        cmp_bytes(a.skip(i), b.skip(i)) == cmp_bytes(a, b),
    decreases i,
{
    if i > 0 {
        lemma_cmp_bytes_skip(a, b, i - 1);
        assert(a.skip(i - 1).drop_first() =~= a.skip(i));
        assert(b.skip(i - 1).drop_first() =~= b.skip(i));
        assert(a.skip(i - 1)[0] == a[i - 1]);
        assert(b.skip(i - 1)[0] == b[i - 1]);
    } else {
        assert(a.skip(0) =~= a);
        assert(b.skip(0) =~= b);
    }
}

/// Comparing from prefixes whose elements compare equal onward gives the
/// same outcome.
proof fn lemma_cmp_vals_skip(a: Seq<Val>, b: Seq<Val>, i: int)
    requires
        0 <= i <= a.len(),
        i <= b.len(),
        forall|j: int| 0 <= j < i ==> cmp_val(a[j], b[j]) == Cmp::Eq,
    ensures
        cmp_vals(a.skip(i), b.skip(i)) == cmp_vals(a, b),
    decreases i,
{
    if i > 0 {
        lemma_cmp_vals_skip(a, b, i - 1);
        assert(a.skip(i - 1).drop_first() =~= a.skip(i));
        assert(b.skip(i - 1).drop_first() =~= b.skip(i));
        assert(a.skip(i - 1)[0] == a[i - 1]);
        assert(b.skip(i - 1)[0] == b[i - 1]);
    } else {
        assert(a.skip(0) =~= a);
        assert(b.skip(0) =~= b);
    }
}

/// Comparing from prefixes whose entries compare equal onward gives the
/// same outcome.
proof fn lemma_cmp_entries_skip(a: Seq<(Val, Val)>, b: Seq<(Val, Val)>, i: int)
    requires
        0 <= i <= a.len(),
        i <= b.len(),
        forall|j: int| 0 <= j < i ==> cmp_entry(a[j], b[j]) == Cmp::Eq,
    ensures
        cmp_entries(a.skip(i), b.skip(i)) == cmp_entries(a, b),
    decreases i,
{
    if i > 0 {
        lemma_cmp_entries_skip(a, b, i - 1);
        assert(a.skip(i - 1).drop_first() =~= a.skip(i));
        assert(b.skip(i - 1).drop_first() =~= b.skip(i));
        assert(a.skip(i - 1)[0] == a[i - 1]);
        assert(b.skip(i - 1)[0] == b[i - 1]);
    } else {
        assert(a.skip(0) =~= a);
        assert(b.skip(0) =~= b);
    }
}

/// Reports the position of a value's variant in the total order.
pub fn rank_of(v: &AnyValue) -> (r: u8)
    ensures
        r as int == rank(v@),
{
    match v {
        AnyValue::Bool(_) => 0,
        AnyValue::Integer(_) => 1,
        AnyValue::Float(_) => 2,
        AnyValue::Utf8String(_) => 3,
        AnyValue::Bytes(_) => 4,
        AnyValue::Sequence(_) => 5,
        AnyValue::Mapping(_) => 6,
        AnyValue::Enum(_) => 7,
        AnyValue::Null => 8,
    }
}

/// Compares two unified integers.
fn cmp_integer_exec(a: &Integer, b: &Integer) -> (r: Cmp)
    ensures
        r == cmp_integer(*a, *b),
{
    match (a, b) {
        (Integer::UnsignedInteger(x), Integer::UnsignedInteger(y)) => {
            if x < y {
                Cmp::Lt
            } else if x == y {
                Cmp::Eq
            } else {
                Cmp::Gt
            }
        },
        (Integer::UnsignedInteger(_), Integer::SignedInteger(_)) => Cmp::Lt,
        (Integer::SignedInteger(_), Integer::UnsignedInteger(_)) => Cmp::Gt,
        (Integer::SignedInteger(x), Integer::SignedInteger(y)) => {
            if x < y {
                Cmp::Lt
            } else if x == y {
                Cmp::Eq
            } else {
                Cmp::Gt
            }
        },
    }
}

/// Compares two strings character by character.
#[verifier::loop_isolation(false)]
fn cmp_str(a: &str, b: &str) -> (r: Cmp)
    ensures
        r == cmp_chars(a@, b@),
{
    let alen = a.unicode_len();
    let blen = b.unicode_len();
    let mut i: usize = 0;
    while i < alen && i < blen
        invariant
            i <= alen,
            i <= blen,
            forall|j: int| 0 <= j < i ==> a@[j] == b@[j],
        decreases alen - i,
    {
        let ca = a.get_char(i);
        let cb = b.get_char(i);
        if ca != cb {
            proof {
                lemma_cmp_chars_skip(a@, b@, i as int);
            }
            if (ca as u32) < (cb as u32) {
                return Cmp::Lt;
            } else {
                return Cmp::Gt;
            }
        }
        i = i + 1;
    }
    proof {
        lemma_cmp_chars_skip(a@, b@, i as int);
    }
    if i < blen {
        Cmp::Lt
    } else if i < alen {
        Cmp::Gt
    } else {
        Cmp::Eq
    }
}

/// Compares two byte vectors byte by byte.
#[verifier::loop_isolation(false)]
fn cmp_byte_vec(a: &Vec<u8>, b: &Vec<u8>) -> (r: Cmp)
    ensures
        r == cmp_bytes(a@, b@),
{
    let alen = a.len();
    let blen = b.len();
    let mut i: usize = 0;
    while i < alen && i < blen
        invariant
            i <= alen,
            i <= blen,
            forall|j: int| 0 <= j < i ==> a@[j] == b@[j],
        decreases alen - i,
    {
        let ba = a[i];
        let bb = b[i];
        if ba != bb {
            proof {
                lemma_cmp_bytes_skip(a@, b@, i as int);
            }
            if ba < bb {
                return Cmp::Lt;
            } else {
                return Cmp::Gt;
            }
        }
        i = i + 1;
    }
    proof {
        lemma_cmp_bytes_skip(a@, b@, i as int);
    }
    if i < blen {
        Cmp::Lt
    } else if i < alen {
        Cmp::Gt
    } else {
        Cmp::Eq
    }
}

/// Compares two dynamic values under the total order.
#[verifier::loop_isolation(false)]
#[verifier::rlimit(100)]
pub fn cmp_value(a: &AnyValue, b: &AnyValue) -> (r: Cmp)
    ensures
        r == cmp_val(a@, b@),
    decreases a@,
{
    let ra = rank_of(a);
    let rb = rank_of(b);
    if ra < rb {
        return Cmp::Lt;
    }
    if ra > rb {
        return Cmp::Gt;
    }
    match (a, b) {
        (AnyValue::Bool(x), AnyValue::Bool(y)) => {
            if x.inner == y.inner {
                Cmp::Eq
            } else if !x.inner {
                Cmp::Lt
            } else {
                Cmp::Gt
            }
        },
        (AnyValue::Integer(x), AnyValue::Integer(y)) => cmp_integer_exec(x, y),
        (AnyValue::Float(x), AnyValue::Float(y)) => x.total_cmp(y),
        (AnyValue::Utf8String(x), AnyValue::Utf8String(y)) => cmp_str(
            x.inner.as_str(),
            y.inner.as_str(),
        ),
        (AnyValue::Bytes(x), AnyValue::Bytes(y)) => cmp_byte_vec(&x.inner, &y.inner),
        (AnyValue::Sequence(x), AnyValue::Sequence(y)) => {
            proof {
                lemma_model_seq(x.inner@);
                lemma_model_seq(y.inner@);
            }
            let xlen = x.inner.len();
            let ylen = y.inner.len();
            let mut i: usize = 0;
            while i < xlen && i < ylen
                invariant
                    i <= xlen,
                    i <= ylen,
                    forall|j: int| 0 <= j < i ==> cmp_val(
                        model_seq(x.inner@)[j],
                        model_seq(y.inner@)[j],
                    ) == Cmp::Eq,
                decreases xlen - i,
            {
                proof {
                    assert(decreases_to!(a@ => model_seq(x.inner@)[i as int]));
                }
                let c = cmp_value(&x.inner[i], &y.inner[i]);
                if !matches!(c, Cmp::Eq) {
                    proof {
                        lemma_cmp_vals_skip(model_seq(x.inner@), model_seq(y.inner@), i as int);
                    }
                    return c;
                }
                i = i + 1;
            }
            proof {
                lemma_cmp_vals_skip(model_seq(x.inner@), model_seq(y.inner@), i as int);
            }
            if i < ylen {
                Cmp::Lt
            } else if i < xlen {
                Cmp::Gt
            } else {
                Cmp::Eq
            }
        },
        (AnyValue::Mapping(x), AnyValue::Mapping(y)) => {
            proof {
                lemma_model_entries(x.entries@);
                lemma_model_entries(y.entries@);
            }
            let xlen = x.entries.len();
            let ylen = y.entries.len();
            let mut i: usize = 0;
            while i < xlen && i < ylen
                invariant
                    i <= xlen,
                    i <= ylen,
                    forall|j: int| 0 <= j < i ==> cmp_entry(
                        model_entries(x.entries@)[j],
                        model_entries(y.entries@)[j],
                    ) == Cmp::Eq,
                decreases xlen - i,
            {
                proof {
                    assert(decreases_to!(a@ => model_entries(x.entries@)[i as int].0));
                    assert(decreases_to!(a@ => model_entries(x.entries@)[i as int].1));
                }
                let ck = cmp_value(&x.entries[i].0, &y.entries[i].0);
                if !matches!(ck, Cmp::Eq) {
                    proof {
                        lemma_cmp_entries_skip(
                            model_entries(x.entries@),
                            model_entries(y.entries@),
                            i as int,
                        );
                    }
                    return ck;
                }
                let cv = cmp_value(&x.entries[i].1, &y.entries[i].1);
                if !matches!(cv, Cmp::Eq) {
                    proof {
                        lemma_cmp_entries_skip(
                            model_entries(x.entries@),
                            model_entries(y.entries@),
                            i as int,
                        );
                    }
                    return cv;
                }
                i = i + 1;
            }
            proof {
                lemma_cmp_entries_skip(model_entries(x.entries@), model_entries(y.entries@), i as int);
            }
            if i < ylen {
                Cmp::Lt
            } else if i < xlen {
                Cmp::Gt
            } else {
                Cmp::Eq
            }
        },
        (AnyValue::Enum(x), AnyValue::Enum(y)) => {
            let cn = cmp_str(x.variant.inner.as_str(), y.variant.inner.as_str());
            if !matches!(cn, Cmp::Eq) {
                return cn;
            }
            proof {
                assert(decreases_to!(a@ => (*x.value)@));
            }
            cmp_value(&x.value, &y.value)
        },
        (AnyValue::Null, AnyValue::Null) => Cmp::Eq,
        _ => {
            proof {
                assert(false);
            }
            Cmp::Eq
        },
    }
}

} // verus!
