//! Matrices of complex entries.

use vstd::prelude::*;
use crate::codec::{
    agrees, Codec, DecodeError, DeepCopy, ErrorKind, ErrorView, PathStep, required, required_spec,
};
use crate::json::{Json, JsonView, Number};

verus! {

/// A matrix of complex entries, each a pair of a real and an imaginary part.
#[derive(Clone, Debug, PartialEq, Eq, Hash)]
pub struct Matrix<T = Number> {
    /// The rows, each a list of entries.
    pub data: Vec<Vec<(T, T)>>,
}

impl<T: DeepView> DeepView for Matrix<T> {
    type V = Seq<Seq<(T::V, T::V)>>;

    open spec fn deep_view(&self) -> Seq<Seq<(T::V, T::V)>> {
        self.data.deep_view()
    }
}

/// An array of rows, each an array of pairs `[re, im]`.
impl<T: Codec> Codec for Matrix<T> {
    open spec fn decode_spec(j: JsonView) -> Result<Seq<Seq<(T::V, T::V)>>, ErrorView> {
        Vec::<Vec<(T, T)>>::decode_spec(j)
    }

    open spec fn encode_spec(v: Seq<Seq<(T::V, T::V)>>) -> JsonView {
        Vec::<Vec<(T, T)>>::encode_spec(v)
    }

    open spec fn valid(v: Seq<Seq<(T::V, T::V)>>) -> bool {
        Vec::<Vec<(T, T)>>::valid(v)
    }

    fn decode(j: &Json) -> (r: Result<Matrix<T>, DecodeError>) {
        match Vec::<Vec<(T, T)>>::decode(j) {
            Ok(x) => Ok(Matrix { data: x }),
            Err(e) => Err(e),
        }
    }

    fn encode(&self) -> (j: Json) {
        self.data.encode()
    }

    proof fn lemma_round_trip(v: Seq<Seq<(T::V, T::V)>>) {
        Vec::<Vec<(T, T)>>::lemma_round_trip(v);
    }
}

impl<T: DeepCopy> DeepCopy for Matrix<T> {
    fn deep_copy(&self) -> (r: Matrix<T>) {
        Matrix { data: self.data.deep_copy() }
    }
}

/// Whether a matrix has `n` rows of `n` entries each.
pub open spec fn square<V>(m: Seq<Seq<V>>, n: nat) -> bool {
    m.len() == n && forall|i: int| 0 <= i < m.len() ==> (#[trigger] m[i]).len() == n
}

impl<T> Matrix<T> {
    /// Whether the matrix has `n` rows of `n` entries each.
    pub fn is_square(&self, n: usize) -> (r: bool)
        ensures
            r == square(self.data@.map_values(|row: Vec<(T, T)>| row@), n as nat),
    {
        let ghost rows = self.data@.map_values(|row: Vec<(T, T)>| row@);
        if self.data.len() != n {
            return false;
        }
        let mut i: usize = 0;
        while i < self.data.len()
            invariant
                i <= self.data.len(),
                self.data.len() == n,
                rows == self.data@.map_values(|row: Vec<(T, T)>| row@),
                forall|k: int| 0 <= k < i ==> (#[trigger] rows[k]).len() == n,
            decreases self.data.len() - i,
        {
            if self.data[i].len() != n {
                assert(rows[i as int].len() != n);
                return false;
            }
            i = i + 1;
        }
        true
    }
}

/// What a field that must hold a matrix of `n` rows and `n` columns decodes
/// to.
pub open spec fn square_spec(j: JsonView, key: &'static str, n: nat) -> Result<
    Seq<Seq<(Number, Number)>>,
    ErrorView,
> {
    match required_spec::<Matrix<Number>>(j, key) {
        Ok(m) => if square(m, n) {
            Ok(m)
        } else {
            Err(ErrorView::here(ErrorKind::InvalidFixedSize).under(PathStep::Field(key)))
        },
        Err(e) => Err(e),
    }
}

/// Decodes a field that must hold a matrix of `n` rows and `n` columns.
pub fn square_matrix(j: &Json, key: &'static str, n: usize) -> (r: Result<Matrix, DecodeError>)
    ensures
        agrees(r, square_spec(j.deep_view(), key, n as nat)),
        r matches Ok(m) ==> square(m.deep_view(), n as nat),
{
    match required::<Matrix<Number>>(j, key) {
        Ok(m) => {
            proof {
                lemma_square_view(m, n as nat);
            }
            if m.is_square(n) {
                Ok(m)
            } else {
                Err(DecodeError::here(ErrorKind::InvalidFixedSize).under(PathStep::Field(key)))
            }
        },
        Err(e) => Err(e),
    }
}

/// A matrix that was decoded has the height and the row lengths of its value.
pub proof fn lemma_square_view<T: DeepView>(m: Matrix<T>, n: nat)
    ensures
        square(m.data@.map_values(|row: Vec<(T, T)>| row@), n) == square(m.deep_view(), n),
{
    let rows = m.data@.map_values(|row: Vec<(T, T)>| row@);
    let v = m.deep_view();
    assert(rows.len() == v.len());
    assert forall|i: int| 0 <= i < rows.len() implies (#[trigger] rows[i]).len() == v[i].len() by {
        assert(v[i] == m.data@[i].deep_view());
    }
    if square(rows, n) {
        assert forall|i: int| 0 <= i < v.len() implies (#[trigger] v[i]).len() == n by {
            assert(rows[i].len() == n);
        }
    }
    if square(v, n) {
        assert forall|i: int| 0 <= i < rows.len() implies (#[trigger] rows[i]).len() == n by {
            assert(v[i].len() == n);
        }
    }
}

} // verus!
