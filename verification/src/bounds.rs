//! Encoded row-key boundary values and their textual rendering.
//!
//! A chunk may carry a minimum and a maximum row-key bound: a short tuple of
//! heterogeneous typed values used for range pruning. The relational view
//! shows each bound through a textual rendering meant for display only; it is
//! deterministic but not a lossless, round-trippable encoding.

use vstd::prelude::*;

use crate::text::{dec_digits_signed, push_i64_dec};

verus! {

/// One typed component of a row-key bound.
#[derive(Clone, Debug)]
pub enum BoundValue {
    /// An absent component.
    Null,
    /// A boolean component.
    Boolean(bool),
    /// A signed integer component.
    Int(i64),
    /// A textual component.
    Text(String),
}

/// A row-key bound: the tuple of typed values of the key columns.
#[derive(Clone, Debug)]
pub struct RowBound {
    pub values: Vec<BoundValue>,
}

/// The textual rendering of one bound component.
pub open spec fn bound_value_text(v: BoundValue) -> Seq<char> {
    match v {
        BoundValue::Null => "NULL"@,
        BoundValue::Boolean(b) => if b {
            "true"@
        } else {
            "false"@
        },
        BoundValue::Int(n) => dec_digits_signed(n as int),
        BoundValue::Text(s) => "\""@ + s@ + "\""@,
    }
}

/// The components of a bound, rendered in order and separated by `", "`.
pub open spec fn joined_values_text(vs: Seq<BoundValue>) -> Seq<char>
    decreases vs.len(),
{
    if vs.len() == 0 {
        Seq::<char>::empty()
    } else if vs.len() == 1 {
        bound_value_text(vs[0])
    } else {
        joined_values_text(vs.drop_last()) + ", "@ + bound_value_text(vs.last())
    }
}

/// The textual rendering of a whole bound: its components in parentheses.
pub open spec fn row_bound_text(b: RowBound) -> Seq<char> {
    "("@ + joined_values_text(b.values@) + ")"@
}

/// Appends the rendering of one bound component to `out`.
fn push_bound_value(v: &BoundValue, out: &mut String)
    ensures
        final(out)@ == old(out)@ + bound_value_text(*v),
{
    match v {
        BoundValue::Null => {
            out.append("NULL");
        },
        BoundValue::Boolean(b) => {
            if *b {
                out.append("true");
            } else {
                out.append("false");
            }
        },
        BoundValue::Int(n) => {
            push_i64_dec(*n, out);
        },
        BoundValue::Text(s) => {
            out.append("\"");
            out.append(s.as_str());
            out.append("\"");
            proof {
                assert(out@ =~= old(out)@ + bound_value_text(*v));
            }
        },
    }
}

/// Renders a row-key bound as display text.
pub fn render_row_bound(b: &RowBound) -> (s: String)
    ensures
        s@ == row_bound_text(*b),
{
    let mut out = String::new();
    out.append("(");
    let ghost opening = out@;
    let n = b.values.len();
    let mut i: usize = 0;
    while i < n
        invariant
            n == b.values@.len(),
            i <= n,
            opening == Seq::<char>::empty() + "("@,
            out@ == opening + joined_values_text(b.values@.take(i as int)),
        decreases n - i,
    {
        if i > 0 {
            out.append(", ");
        }
        push_bound_value(&b.values[i], &mut out);
        proof {
            let vs = b.values@;
            let k = i as int;
            assert(vs.take(k + 1).drop_last() =~= vs.take(k));
            assert(vs.take(k + 1).last() == vs[k]);
            if k == 0 {
                assert(joined_values_text(vs.take(1)) == bound_value_text(vs[0]));
                assert(out@ =~= opening + joined_values_text(vs.take(1)));
            } else {
                assert(out@ =~= opening + joined_values_text(vs.take(k + 1)));
            }
        }
        i = i + 1;
    }
    proof {
        assert(b.values@.take(n as int) =~= b.values@);
    }
    out.append(")");
    proof {
        assert(out@ =~= row_bound_text(*b));
    }
    out
}

} // verus!
