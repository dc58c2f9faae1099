//! The format-agnostic structured value.
//!
//! A [`StructuredValue`] is a tree of tables, arrays and scalars that both the TOML and
//! the JSON conversions use as their pivot between text and typed data.  Its
//! mathematical model is [`ValModel`], a ghost tree over `Seq` and `int`, and
//! every contract in this crate speaks of values through that model.

use vstd::prelude::*;

verus! {

broadcast use vstd::std_specs::vec::group_vec_axioms;

/// A structured value: the intermediate tree between serialized text and a
/// typed value.  A table keeps its entries in the order they were written.
#[derive(Debug)]
pub enum StructuredValue {
    /// A boolean scalar.
    Boolean(bool),
    /// An integer scalar.
    Integer(i64),
    /// A text scalar.
    Text(String),
    /// An ordered list of values.
    Array(Vec<StructuredValue>),
    /// An ordered list of key-value entries.
    Table(Vec<(String, StructuredValue)>),
}

/// The mathematical model of a [`StructuredValue`]: the same tree over `Seq` and `int`.
#[verifier::ext_equal]
pub enum ValModel {
    /// Model of a boolean scalar.
    Bool(bool),
    /// Model of an integer scalar.
    Int(int),
    /// Model of a text scalar.
    Text(Seq<char>),
    /// Model of an array.
    Arr(Seq<ValModel>),
    /// Model of a table.
    Table(Seq<(Seq<char>, ValModel)>),
}

/// The model of a value: each node mapped to its ghost counterpart.
pub open spec fn value_model(v: StructuredValue) -> ValModel
    decreases v,
{
    match v {
        StructuredValue::Boolean(b) => ValModel::Bool(b),
        StructuredValue::Integer(i) => ValModel::Int(i as int),
        StructuredValue::Text(s) => ValModel::Text(s@),
        StructuredValue::Array(items) => ValModel::Arr(array_model(items@)),
        StructuredValue::Table(entries) => ValModel::Table(table_model(entries@)),
    }
}

/// The models of the elements of an array, in order.
pub open spec fn array_model(s: Seq<StructuredValue>) -> Seq<ValModel>
    decreases s,
{
    Seq::new(
        s.len(),
        |i: int|
            // the range guard keeps the recursion on elements of `s` alone
            if 0 <= i < s.len() {
                value_model(s[i])
            } else {
                ValModel::Bool(false)
            },
    )
}

/// The models of the entries of a table, in order: each key as a sequence of
/// characters beside the model of its value.
pub open spec fn table_model(s: Seq<(String, StructuredValue)>) -> Seq<(Seq<char>, ValModel)>
    decreases s,
{
    Seq::new(
        s.len(),
        |i: int|
            // the range guard keeps the recursion on elements of `s` alone
            if 0 <= i < s.len() {
                (s[i].0@, value_model(s[i].1))
            } else {
                (Seq::<char>::empty(), ValModel::Bool(false))
            },
    )
}

impl View for StructuredValue {
    type V = ValModel;

    open spec fn view(&self) -> ValModel {
        value_model(*self)
    }
}

impl StructuredValue {
    /// A copy of this value with the same model.
    #[verifier::loop_isolation(false)]
    pub fn duplicate(&self) -> (r: StructuredValue)
        ensures
            r@ == self@,
        decreases *self,
    {
        match self {
            StructuredValue::Boolean(b) => StructuredValue::Boolean(*b),
            StructuredValue::Integer(i) => StructuredValue::Integer(*i),
            StructuredValue::Text(s) => StructuredValue::Text(s.clone()),
            StructuredValue::Array(items) => {
                let mut out: Vec<StructuredValue> = Vec::new();
                let mut i: usize = 0;
                while i < items.len()
                    invariant
                        i <= items@.len(),
                        out@.len() == i,
                        forall|j: int| 0 <= j < i ==> value_model(out@[j]) == value_model(
                            items@[j],
                        ),
                    decreases items@.len() - i,
                {
                    proof {
                        assert(decreases_to!(*items => items@));
                        assert(decreases_to!(items@ => items@[i as int]));
                    }
                    out.push(items[i].duplicate());
                    i = i + 1;
                }
                proof {
                    assert(array_model(out@) =~= array_model(items@));
                }
                StructuredValue::Array(out)
            },
            StructuredValue::Table(entries) => {
                let mut out: Vec<(String, StructuredValue)> = Vec::new();
                let mut i: usize = 0;
                while i < entries.len()
                    invariant
                        i <= entries@.len(),
                        out@.len() == i,
                        forall|j: int| 0 <= j < i ==> out@[j].0@ == entries@[j].0@
                            && value_model(out@[j].1) == value_model(entries@[j].1),
                    decreases entries@.len() - i,
                {
                    proof {
                        assert(decreases_to!(*entries => entries@));
                        assert(decreases_to!(entries@ => entries@[i as int]));
                        assert(decreases_to!(entries@[i as int] => entries@[i as int].1));
                    }
                    let key = entries[i].0.clone();
                    let val = entries[i].1.duplicate();
                    out.push((key, val));
                    i = i + 1;
                }
                proof {
                    assert(table_model(out@) =~= table_model(entries@));
                }
                StructuredValue::Table(out)
            },
        }
    }
}

/// Structural equality of two values: `true` exactly when their models are
/// the same tree.
pub fn value_eq(a: &StructuredValue, b: &StructuredValue) -> (r: bool)
    ensures
        r == (a@ == b@),
    decreases *a,
{
    match (a, b) {
        (StructuredValue::Boolean(x), StructuredValue::Boolean(y)) => x == y,
        (StructuredValue::Integer(x), StructuredValue::Integer(y)) => x == y,
        (StructuredValue::Text(x), StructuredValue::Text(y)) => x.eq(y),
        (StructuredValue::Array(x), StructuredValue::Array(y)) => array_eq(x, y),
        (StructuredValue::Table(x), StructuredValue::Table(y)) => table_eq(x, y),
        _ => false,
    }
}

/// Element-wise equality of two arrays of values.
fn array_eq(x: &Vec<StructuredValue>, y: &Vec<StructuredValue>) -> (r: bool)
    ensures
        r == (array_model(x@) == array_model(y@)),
    decreases *x,
{
    proof {
        assert(array_model(x@).len() == x@.len());
        assert(array_model(y@).len() == y@.len());
    }
    if x.len() != y.len() {
        return false;
    }
    let mut i: usize = 0;
    while i < x.len()
        invariant
            x@.len() == y@.len(),
            i <= x@.len(),
            forall|j: int| 0 <= j < i ==> array_model(x@)[j] == array_model(y@)[j],
        decreases x@.len() - i,
    {
        if !value_eq(&x[i], &y[i]) {
            assert(array_model(x@)[i as int] != array_model(y@)[i as int]);
            return false;
        }
        i = i + 1;
    }
    proof {
        assert(array_model(x@) =~= array_model(y@));
    }
    true
}

/// Entry-wise equality of two tables: same keys and equal values, in the
/// same order.
fn table_eq(x: &Vec<(String, StructuredValue)>, y: &Vec<(String, StructuredValue)>) -> (r: bool)
    ensures
        r == (table_model(x@) == table_model(y@)),
    decreases *x,
{
    proof {
        assert(table_model(x@).len() == x@.len());
        assert(table_model(y@).len() == y@.len());
    }
    if x.len() != y.len() {
        return false;
    }
    let mut i: usize = 0;
    while i < x.len()
        invariant
            x@.len() == y@.len(),
            i <= x@.len(),
            forall|j: int| 0 <= j < i ==> table_model(x@)[j] == table_model(y@)[j],
        decreases x@.len() - i,
    {
        let keys_equal = x[i].0 == y[i].0;
        if !keys_equal {
            assert(table_model(x@)[i as int] != table_model(y@)[i as int]);
            return false;
        }
        if !value_eq(&x[i].1, &y[i].1) {
            assert(table_model(x@)[i as int] != table_model(y@)[i as int]);
            return false;
        }
        i = i + 1;
    }
    proof {
        assert(table_model(x@) =~= table_model(y@));
    }
    true
}

} // verus!
