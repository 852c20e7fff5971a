//! Tensors, and the matrix and vector shapes built on them. Contents are
//! stored column-major.
use vstd::prelude::*;

verus! {

/// The number of dimensions a tensor records.
pub const MAX_DIMS: usize = 8;

/// An ordered set of elements with up to eight dimension lengths. Contents
/// are stored column-major; a tensor may also carry a shape alone.
pub struct Tensor<T> {
    data: Option<Vec<T>>,
    dims: [u16; 8],
}

/// The views of the vectors in `s`.
pub open spec fn views_of<T>(s: Seq<Vec<T>>) -> Seq<Seq<T>> {
    s.map_values(|v: Vec<T>| v@)
}

/// The length of the first vector of `s`, or zero when there is none.
pub open spec fn first_len<T>(s: Seq<Vec<T>>) -> nat {
    if s.len() == 0 {
        0
    } else {
        s[0]@.len()
    }
}

/// The dimension lengths of a two-dimensional shape.
pub open spec fn dims2(vlen: nat, hlen: nat) -> Seq<u16> {
    seq![vlen as u16, hlen as u16, 0u16, 0u16, 0u16, 0u16, 0u16, 0u16]
}

/// The column-major contents of the matrix whose rows are `rows`, each cut to
/// `ncols` elements.
pub open spec fn column_major<T>(rows: Seq<Seq<T>>, ncols: nat) -> Seq<T> {
    Seq::new(ncols * rows.len(), |k: int| rows[k % (rows.len() as int)][k / (rows.len() as int)])
}

impl<T> Tensor<T> {
    pub closed spec fn spec_data(&self) -> Option<Seq<T>> {
        match self.data {
            Some(v) => Some(v@),
            None => None,
        }
    }

    pub closed spec fn spec_dims(&self) -> Seq<u16> {
        self.dims@
    }

    /// The contents, if the tensor has any.
    pub fn data(&self) -> (r: Option<&Vec<T>>)
        ensures
            r is None <==> self.spec_data() is None,
            r matches Some(v) ==> self.spec_data() == Some(v@),
    {
        match &self.data {
            Some(v) => Some(v),
            None => None,
        }
    }

    /// The eight dimension lengths.
    pub fn dims(&self) -> (r: [u16; 8])
        ensures
            r@ == self.spec_dims(),
    {
        self.dims
    }

    /// The horizontal length: the second dimension.
    pub fn hlen(&self) -> (r: usize)
        ensures
            r == self.spec_dims()[1],
    {
        self.dims[1] as usize
    }

    /// The vertical length: the first dimension.
    pub fn vlen(&self) -> (r: usize)
        ensures
            r == self.spec_dims()[0],
    {
        self.dims[0] as usize
    }

    /// The length of dimension `d`, counted from zero.
    pub fn len_for(&self, d: usize) -> (r: u16)
        requires
            d < MAX_DIMS,
        ensures
            r == self.spec_dims()[d as int],
    {
        self.dims[d]
    }
}

/// A two-dimensional tensor.
pub struct Matrix<T>(Tensor<T>);

impl<T: Copy> Matrix<T> {
    pub closed spec fn spec_tensor(&self) -> Tensor<T> {
        self.0
    }

    /// The tensor underneath.
    pub fn as_tensor(&self) -> (r: &Tensor<T>)
        ensures
            *r == self.spec_tensor(),
    {
        &self.0
    }

    /// A matrix of `n` rows and `m` columns with no contents yet.
    pub fn new(n: usize, m: usize) -> (r: Matrix<T>)
        requires
            n <= u16::MAX,
            m <= u16::MAX,
        ensures
            r.spec_tensor().spec_data() is None,
            r.spec_tensor().spec_dims() == dims2(n as nat, m as nat),
    {
        let r = Matrix(Tensor { data: None, dims: [n as u16, m as u16, 0, 0, 0, 0, 0, 0] });
        assert(r.spec_tensor().spec_dims() =~= dims2(n as nat, m as nat));
        r
    }

    /// A matrix of `N` rows and `M` columns, fixed at compile time, with no
    /// contents yet.
    pub fn new_const<const N: usize, const M: usize>() -> (r: Matrix<T>)
        requires
            N <= u16::MAX,
            M <= u16::MAX,
        ensures
            r.spec_tensor().spec_data() is None,
            r.spec_tensor().spec_dims() == dims2(N as nat, M as nat),
    {
        Self::new(N, M)
    }

    /// The matrix whose columns are the vectors of `md_arr`, in order. Its
    /// height is the length of the first column.
    pub fn from_cols(md_arr: Vec<Vec<T>>) -> (r: Matrix<T>)
        requires
            md_arr@.len() <= u16::MAX,
            first_len(md_arr@) <= u16::MAX,
        ensures
            r.spec_tensor().spec_data() == Some(views_of(md_arr@).flatten()),
            r.spec_tensor().spec_dims() == dims2(first_len(md_arr@), md_arr@.len()),
    {
        let mut data: Vec<T> = Vec::new();
        let mut c: usize = 0;
        while c < md_arr.len()
            invariant
                c <= md_arr@.len(),
                data@ == views_of(md_arr@).take(c as int).flatten(),
            decreases md_arr@.len() - c,
        {
            let col = &md_arr[c];
            let mut r: usize = 0;
            while r < col.len()
                invariant
                    c < md_arr@.len(),
                    *col == md_arr@[c as int],
                    r <= col@.len(),
                    data@ == views_of(md_arr@).take(c as int).flatten() + col@.take(r as int),
                decreases col@.len() - r,
            {
                data.push(col[r]);
                proof {
                    assert(col@.take(r + 1) =~= col@.take(r as int).push(col@[r as int]));
                }
                r = r + 1;
            }
            proof {
                let vs = views_of(md_arr@);
                assert(vs.take(c + 1) =~= vs.take(c as int).push(vs[c as int]));
                vs.take(c as int).lemma_flatten_push(vs[c as int]);
                assert(col@.take(r as int) =~= vs[c as int]);
            }
            c = c + 1;
        }
        assert(views_of(md_arr@).take(c as int) =~= views_of(md_arr@));
        let h: u16 = if md_arr.len() == 0 {
            0
        } else {
            md_arr[0].len() as u16
        };
        let r = Matrix(Tensor { data: Some(data), dims: [h, md_arr.len() as u16, 0, 0, 0, 0, 0, 0] });
        assert(r.spec_tensor().spec_dims() =~= dims2(first_len(md_arr@), md_arr@.len()));
        r
    }

    /// The matrix whose rows are the vectors of `md_arr`, in order. Its width
    /// is the length of the first row; no row may be shorter.
    pub fn from_rows(md_arr: Vec<Vec<T>>) -> (r: Matrix<T>)
        requires
            md_arr@.len() <= u16::MAX,
            first_len(md_arr@) <= u16::MAX,
            forall|i: int| 0 <= i < md_arr@.len() ==> md_arr@[i]@.len() >= first_len(md_arr@),
        ensures
            r.spec_tensor().spec_data() == Some(column_major(views_of(md_arr@), first_len(md_arr@))),
            r.spec_tensor().spec_dims() == dims2(md_arr@.len(), first_len(md_arr@)),
    {
        let nrows = md_arr.len();
        let ncols: usize = if nrows == 0 {
            0
        } else {
            md_arr[0].len()
        };
        let ghost rows = views_of(md_arr@);
        let mut data: Vec<T> = Vec::new();
        let mut c: usize = 0;
        while c < ncols
            invariant
                nrows == md_arr@.len(),
                ncols == first_len(md_arr@),
                rows == views_of(md_arr@),
                c <= ncols,
                forall|i: int| 0 <= i < md_arr@.len() ==> md_arr@[i]@.len() >= first_len(md_arr@),
                data@ =~= Seq::new((c * nrows) as nat, |k: int| rows[k % (nrows as int)][k / (nrows as int)]),
            decreases ncols - c,
        {
            let mut r: usize = 0;
            while r < nrows
                invariant
                    nrows == md_arr@.len(),
                    ncols == first_len(md_arr@),
                    rows == views_of(md_arr@),
                    c < ncols,
                    r <= nrows,
                    forall|i: int| 0 <= i < md_arr@.len() ==> md_arr@[i]@.len() >= first_len(md_arr@),
                    data@ =~= Seq::new((c * nrows + r) as nat, |k: int| rows[k % (nrows as int)][k / (nrows as int)]),
                decreases nrows - r,
            {
                data.push(md_arr[r][c]);
                proof {
                    let n = nrows as int;
                    let k = c * n + r;
                    vstd::arithmetic::div_mod::lemma_fundamental_div_mod_converse_mod(k, n, c as int, r as int);
                    vstd::arithmetic::div_mod::lemma_fundamental_div_mod_converse_div(k, n, c as int, r as int);
                }
                r = r + 1;
            }
            proof {
                assert(c * nrows + nrows == (c + 1) * nrows) by (nonlinear_arith);
            }
            c = c + 1;
        }
        proof {
            assert(ncols * nrows == nrows * ncols) by (nonlinear_arith);
        }
        let r = Matrix(Tensor { data: Some(data), dims: [nrows as u16, ncols as u16, 0, 0, 0, 0, 0, 0] });
        assert(r.spec_tensor().spec_dims() =~= dims2(md_arr@.len(), first_len(md_arr@)));
        assert(r.spec_tensor().spec_data()->0 =~= column_major(views_of(md_arr@), first_len(md_arr@)));
        r
    }
}

/// A one-dimensional tensor.
pub struct Vector<T>(Tensor<T>);

impl<T> Vector<T> {
    pub closed spec fn spec_tensor(&self) -> Tensor<T> {
        self.0
    }

    /// The tensor underneath.
    pub fn as_tensor(&self) -> (r: &Tensor<T>)
        ensures
            *r == self.spec_tensor(),
    {
        &self.0
    }

    /// The vector holding the elements of `arr`, in order.
    pub fn from(arr: Vec<T>) -> (r: Vector<T>)
        requires
            arr@.len() <= u16::MAX,
        ensures
            r.spec_tensor().spec_data() == Some(arr@),
            r.spec_tensor().spec_dims() == seq![arr@.len() as u16, 0u16, 0u16, 0u16, 0u16, 0u16, 0u16, 0u16],
    {
        let n = arr.len() as u16;
        let r = Vector(Tensor { data: Some(arr), dims: [n, 0, 0, 0, 0, 0, 0, 0] });
        assert(r.spec_tensor().spec_dims() =~= seq![n, 0u16, 0u16, 0u16, 0u16, 0u16, 0u16, 0u16]);
        r
    }
}

} // verus!
