# konnoohmachi

Konno-Ohmachi spectral smoothing, split in two:

- `src/` is the verified core (Verus). It decides how the smoothing is laid
  out, on plain values: `validation` (which requests are accepted and with
  which error, in the order of each entry point), `zero_frequency` (the first
  zero of a frequency axis), `window` (which weight of each window comes from
  the kernel, is forced to one at the corner, or to zero at the zero
  frequency), and `smoother` (the dense `n x n` cache of windows, its length
  and its size in bytes).
- `app/` holds the floating-point arithmetic (the `(sin(x)/x)^4` kernel, the
  normalization, the matrix products) on `ndarray` arrays, and the Python
  interface through `pyo3` and `numpy`.
