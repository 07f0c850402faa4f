# yp_ffi

Image effects applied through plugin libraries, with the library part
verified by Verus.

- `src/` — the verified library:
  - `raster` — the RGBA layout of an image in a byte buffer, and what a
    flip does to it, with the lemmas on positions of pixels;
  - `imaging` — the calls into the `image` crate (and std) with their
    contracts;
  - `mirror` — the mirror effect and its laws (no flip changes nothing,
    mirroring twice restores the image, flips compose and commute);
  - `grayscale` — the grayscale effect and its laws (alpha kept, gray
    images unchanged, a second pass changes nothing);
  - `params` — the plugins' parameters;
  - `plugin` — the plugin catalogue, library file names and errors;
  - `loader` — the steps a host takes to load a plugin library and call it.
- `app/` — the command-line tool and the plugins' C entry points: argument
  handling, image decoding and encoding, JSON parameters, dynamic loading,
  and the blur effect, whose strength is a floating-point sigma.
- `tests/` — tests of the library.
