# pydantic_core (verified core)

Dictionary validation, version strings and build information of a data
validation library for Python, written in Verus with their contracts.

- `src/errors.rs`: locations, line errors and validator errors, with their views.
- `src/output_dict.rs`: the insertion-ordered dictionary that validation builds.
- `src/dict.rs`: the dict validator's settings and name, and the decisions taken
  for each key and value outcome and at the end (length bounds).
- `src/dict_laws.rs`: what holds of every dictionary validation.
- `src/json.rs`: partial mode and JSON parse settings.
- `src/version.rs`: Cargo to Python version notation, build information.
- `src/iteration_order.rs`: `<position>:<repr>` labels of an iteration order.
- `app/`: the Python module (pyo3): it reads Python objects, runs the item
  validators and the JSON parser, and builds Python results from the
  library's decisions.
