# polodb_python

Python bindings for the PoloDB embedded document database, split in two:

- `src/` is a Verus-verified library with the logic of the bindings that
  does not talk to the Python interpreter or to the database files:
  - `object_id`: ObjectIds as twelve bytes; parsing and printing their
    hexadecimal text through the `bson` crate, with the proof that printed
    text parses back to the same id.
  - `regex_flags`: Python `re` flag bits to BSON option letters and back,
    with the proofs of both round trips.
  - `decimal`, `index_name`: the generated name of an index
    (`<field>_<direction>` parts joined by `_`).
  - `transaction`: a transaction is finished at most once and refuses
    every use afterwards.
  - `query`: skip/limit counts where 0 means unset.
  - `config`: the default storage settings.
  - `conversion`: why a Python value cannot be stored, and the message.
- `app/` is the PyO3 extension module `polodb._rust`: the classes, the
  conversions between Python objects and BSON, and the calls into PoloDB
  Core.
- `tests/` runs the library on concrete values.
