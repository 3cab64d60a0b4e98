# xrizer

The verified core of an OpenVR runtime built on OpenXR.

- `src/` holds the library, checked by Verus: input path grammar and
  interaction profiles (`input::paths`, `input::profiles`), binding files
  (`input::action_manifest::bindings`), the state machines of custom
  bindings (`input::custom_bindings`), the tracked device list
  (`input::devices`), the legacy controller interface (`input::legacy`),
  the hand skeleton hierarchy (`input::skeletal`), the tracked-device
  queries (`system`), render models (`rendermodels`), session bookkeeping
  (`openxr_data`) and the frame order of the test runtime (`fakexr`).
- `tests/` exercises the library on concrete values.
- `app/` is ordinary Rust around it: reading binding files with serde,
  building render model vertices (floating point) from OBJ files,
  comparing float action values with binding thresholds, running the
  per-profile loop, and driving an OpenXR session from the library's
  decisions.
