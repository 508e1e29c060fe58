# Blub

The core of an interactive renderer for fluids, verified with Verus: which key moves the camera, how
the window's surface is configured, what the settings window shows and sets off, how the files of a
background become a cubemap, and in which order a frame is drawn.

`src/` holds the verified library.

- `input`, `events`, `gpu`, `simulation`: the values that the other modules speak of.
- `camera`: held keys, mouse movements and the lock of the free-flying camera.
- `screen`: the surface configuration, the textures behind the picture, and what follows when the
  surface has no texture to give.
- `gui`: the settings window, its panels and the rows of its profiler.
- `cubemap_loader`, `hdr`, `background`: the background, from Radiance files or from a raw cache.
- `application`, `frame`, `startup`: what events set off, and the steps of a frame and of the start.
- `paths`, `square`: what the others need of paths and of square numbers.

Floating-point numbers do not occur in the library. It carries them as bit patterns, and the code
around it does the arithmetic.

`app/` is the program around the library. It opens the window and the GPU, performs the actions that
the library returns, and tells the library what came of each. Public proof functions whose names
begin with `law_` state what holds of several functions together; `tests/` runs the library on
concrete values.
