# parley alignment

Line alignment for text layout, verified with Verus.

`align` sets, for each line of a `LayoutData`, the offset of its content in the line box and
the space given to each justification opportunity, from the line's geometry, why it ends, the
paragraph's direction, the `Alignment` and the `AlignmentOptions`. Coordinates are whole layout
units; the offsets and the amounts per justification opportunity that `align` writes are
exact fractions (`Ratio`), so centring and justification are exact.

- `src/data.rs`: the layout and line data that alignment reads and writes.
- `src/alignment.rs`: `Alignment`, `AlignmentOptions`, the specification of where each line goes,
  and `align`.
- `src/properties.rs`: the properties of alignment, proved over the contract of `align`.
