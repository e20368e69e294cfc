# ipow2 - Efficient power-of-two abstraction, verified

Two types for powers of two, `Pow2<T>` (an exponent that is a valid shift amount
for the unsigned integer `T`) and `UnboundedPow2` (any exponent in `0..=255`), and
the division, remainder, rounding and alignment operations of every primitive
integer by them, written with shifts and masks and proved with Verus against
exact integer arithmetic.

## Layout

- `src/arith.rs` - the model: division and remainder by `2^e` rounded down, up,
  to the nearest and towards zero, over unbounded integers, with the lemmas about
  them.
- `src/integer.rs`, `src/int_impls.rs` - the `Int` trait that describes a primitive
  integer by its width and value, and its implementations, whose bit-level facts
  are proved with the bit-vector solver.
- `src/bits.rs` - shifts and masks as arithmetic, once for all widths.
- `src/ops.rs` - the algorithms, generic over the integer type and the exponent.
- `src/pow2.rs` - `Pow2<T>`, `UnboundedPow2`, their errors and conversions.
- `src/functions.rs`, `src/unbounded_floor.rs` - the free functions and the traits
  they dispatch through; each trait states its result as a spec function.
- `src/operators.rs` - `/`, `%`, `*` and their assigning forms.
- `src/laws.rs` - the laws that relate the operations to one another.
- `tests/` - unit tests, an exhaustive reference oracle and the laws on concrete
  values.

Verus checks every function of `src/`; the tests run as ordinary Rust tests.
