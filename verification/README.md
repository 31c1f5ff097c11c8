# GeoScope

The logic of a viewer for geophysical-fluid-dynamics NetCDF data, written
in Verus and proved against its contracts.

## Layout

- `src/` — the verified library:
  - `ui`, `export` — the view settings, colormaps, export settings and the
    RGBA drawing primitives of image export;
  - `data` — variables, the store of open files, path rules, dimension
    detection and the slices read from a file;
  - `inference` — the three-level variable inference and wind-pair detection;
  - `colormap` — the 256-entry colour tables, computed as single-precision
    floating point computes them, in exact integer arithmetic;
  - `settings`, `script`, `parser`, `python` — applying requested settings,
    script settings, reading edited Python back and writing Python for the
    current view;
  - `roundtrip` — what the parser reads back from the Python written for a
    view, and that applying it leaves the view as it was.  This is proved
    for a file path and variable names that hold no quote, opening
    parenthesis, `=`, space or line break, and for range texts that are
    plain numbers;
  - `controls` — the viewport's keyboard shortcuts, animation playback and
    the inspector's choice of wind components;
  - `palette` — the command palette;
  - `mcp` — the command bridge: commands, the settings they amount to,
    status and variable reports;
  - `copilot` — the assistant's prompt, the description of the view, the
    settings file that holds the API key, the request sent to the model and
    the text read from its reply, and the client and request state;
  - `session` — what a saved session records, and restoring it: reopening
    its files, the active file and the view;
  - `trajectory` — trajectories from JSON documents and CSV text;
  - `spectral`, `plot` — grid rules of the wavenumber filter, plot ticks;
  - `i18n` — the English and Japanese texts;
  - `text`, `numeric` — character sequences, decimal integers and the
    grammar of floating-point literals.
- `app/` — the command-line program around the library: NetCDF reading,
  the session file, scripting with Rhai, the TCP command bridge, the chat request, image
  files, and everything that computes with floating-point values.
- `tests/` — tests of the library.

Floating-point values never enter the library: a value such as a colour
range bound is carried as its `f32` bit pattern, and numbers read from text
are returned as text that the program converts.
