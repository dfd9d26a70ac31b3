# vantara

A minimal DRM/KMS desktop: it finds the graphics card and a usable
connector/encoder/CRTC, paints an XRGB8888 framebuffer with a wallpaper (or a
solid background), and moves a mouse cursor over it.

* `src/` is the verified library (Verus): pixel primitives (`pixel`), decoded
  images and resampling (`raster`), wallpaper placement and drawing and the
  panels (`graphics`), the plain image copy (`wallpaper`), the display-setup
  search and card selection (`display`), and the cursor: erasing, blending,
  pointer motion and mouse detection (`input`). Image decoding and
  resampling are calls into the `image` crate behind trusted wrappers.
* `app/` is the program around it: opening devices, talking to the kernel
  through `drm`, `evdev` and `nix`, reading image files, the floating-point
  scale factor and alpha blend, and the main loop.
* `tests/` exercises the library on concrete framebuffers.
