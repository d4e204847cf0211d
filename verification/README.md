# ecape_rs

Entraining parcel-path ECAPE diagnostics, split into a verified decision
library and a floating-point driver.

- `src/` (verified with Verus) holds every decision the calculation makes:
  sounding validation and error precedence (`validate`), bracketing and
  profile lookup (`bracket`), level selection for layer means and the
  most-unstable search (`levels`), the parcel origin (`origin`), the storm
  motion (`storm`), the stepping of the parcel ascent (`ascent`), the
  top-down CAPE/CIN/LFC/EL scan and the NCAPE span (`scan`), and which
  ECAPE terms and which entrainment rate are used (`ecape`). The error type
  and the option enums live in `types`.
- `app/` holds the floating-point thermodynamics and integrals, which hand
  their comparisons to the library as plain booleans and act on its answers,
  and the serialisable copies of the library's types.
- `tests/` exercises each decision on concrete inputs.
