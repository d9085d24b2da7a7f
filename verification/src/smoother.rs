use vstd::prelude::*;
use vstd::layout::size_of;
use vstd::slice::slice_subrange;

verus! {

/// The rows of a dense `n x n` matrix stored row by row in `flat`.
pub open spec fn dense_rows<W>(flat: Seq<W>, n: nat) -> Seq<Seq<W>> {
    Seq::new(n, |i: int| flat.subrange(i * n, i * n + n))
}

/// A set of pre-computed smoothing windows for one frequency axis.
///
/// Building the windows is the expensive part of the smoothing; applying them
/// is a single matrix-vector product. The windows are stored densely, one row
/// of `n` weights per frequency, so memory grows quadratically with the
/// length of the axis: `n * n` weights of `size_of::<W>()` bytes each.
pub struct Smoother<W> {
    n_frequencies: usize,
    /// Row `i`, at `i * n .. (i + 1) * n`, is the window centred on frequency `i`.
    windows: Vec<W>,
}

impl<W> Smoother<W> {
    /// The storage holds exactly `n * n` weights, and their size in bytes
    /// fits in a `usize`.
    #[verifier::type_invariant]
    spec fn dense(self) -> bool {
        &&& self.windows@.len() == self.n_frequencies * self.n_frequencies
        &&& self.n_frequencies * self.n_frequencies <= usize::MAX
        &&& self.windows@.len() * size_of::<W>() <= usize::MAX
    }
}

impl<W> View for Smoother<W> {
    /// One window per frequency of the axis, each with one weight per frequency.
    type V = Seq<Seq<W>>;

    closed spec fn view(&self) -> Seq<Seq<W>> {
        dense_rows(self.windows@, self.n_frequencies as nat)
    }
}

proof fn lemma_row_in_bounds(i: int, n: int)
    by (nonlinear_arith)
    requires
        0 <= i < n,
    ensures
        0 <= i * n,
        i * n + n <= n * n,
{
}

impl<W> Smoother<W> {
    /// Takes the windows of an axis of `n_frequencies` frequencies, stored row
    /// by row: row `i` is the window centred on frequency `i`.
    ///
    /// Refuses (`None`) storage that does not hold exactly `n * n` weights, or
    /// whose size in bytes does not fit in a `usize`.
    pub fn from_windows(n_frequencies: usize, windows: Vec<W>) -> (smoother: Option<Self>)
        ensures
            smoother is Some <==> ({
                &&& windows@.len() == n_frequencies * n_frequencies
                &&& n_frequencies * n_frequencies * size_of::<W>() <= usize::MAX
            }),
            smoother matches Some(s) ==> s@ == dense_rows(windows@, n_frequencies as nat),
    {
        let weight_bytes = core::mem::size_of::<W>();
        let stored = windows.len();
        match n_frequencies.checked_mul(n_frequencies) {
            None => None,
            Some(cells) => {
                if cells != stored {
                    None
                } else {
                    match cells.checked_mul(weight_bytes) {
                        None => None,
                        Some(_) => Some(Smoother { n_frequencies, windows }),
                    }
                }
            },
        }
    }

    /// Number of frequencies this smoother was built for.
    pub fn len(&self) -> (n: usize)
        ensures
            n == self@.len(),
    {
        self.n_frequencies
    }

    /// Whether this smoother was built for an empty frequency axis.
    pub fn is_empty(&self) -> (empty: bool)
        ensures
            empty <==> self@.len() == 0,
    {
        self.len() == 0
    }

    /// Memory held by the cached windows, in bytes: `n * n` weights.
    pub fn nbytes(&self) -> (bytes: usize)
        ensures
            bytes == self@.len() * self@.len() * size_of::<W>(),
    {
        proof {
            use_type_invariant(self);
        }
        self.windows.len() * core::mem::size_of::<W>()
    }

    /// The window centred on frequency `index_frequency`: one weight per
    /// frequency of the axis.
    pub fn window(&self, index_frequency: usize) -> (weights: &[W])
        requires
            index_frequency < self@.len(),
        ensures
            weights@ == self@[index_frequency as int],
            weights@.len() == self@.len(),
    {
        proof {
            use_type_invariant(self);
            lemma_row_in_bounds(index_frequency as int, self.n_frequencies as int);
        }
        let n = self.n_frequencies;
        let start = index_frequency * n;
        slice_subrange(self.windows.as_slice(), start, start + n)
    }
}

} // verus!
