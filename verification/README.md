# dash7_alp

A codec for the Dash7 ALP (Application Layer Protocol) binary format, written in
Verus. Every encodable item has its encoding stated as a spec function over bytes;
encoders are proved to write exactly that encoding and decoders are proved to read
it back.

Layout:

- `src/varint.rs`, `src/variable_uint.rs`: the variable size unsigned integer of ALP.
- `src/decodable.rs`, `src/codec.rs`: byte helpers, sizes and errors shared by the
  decoders.
- `src/define.rs`, `src/define/`: byte strings, masked values and ranges, file offsets.
- `src/v1_2/`: version 1.2 of the specification: actions (`action/`), their
  operands (`operand/`), the Dash7 addressee and interface status (`dash7/`), op
  codes and flags (`define/`) and the errors (`error/`).
  - Most actions come in two forms: a borrowing `...Ref` value with `encode_in` and
    `decode`, and an `Encoded...`/`Encoded...Mut` reader that works in place on the
    encoded bytes.
  - `action/mod.rs` holds `Action`, which decodes an action by its op code: every op
    code of the specification but forward, request tag and the extension, whose layouts
    are not defined here (they are answered with an error).
  - `action/text.rs` gives the text of an action (`NOP[G-]`, `RD[G-]f(1,2,3)`, ...)
    as a spec function and `Action::to_string`; queries, statuses, indirect forwards
    and file properties actions have no text here.
- `src/v1_2/data.rs`: the header of a file, carried by the file properties actions.
- `src/wizzilab/`: items specific to the WizziLab modems: their op codes (with the
  flow and transmission status actions), the flow action, the retry modes and the
  stack errors. The WizziLab `Action` itself, with its forward, status and
  transmission status operands, is not part of this crate.

Each module ends with `lemma_roundtrip`-style proof functions stating that decoding
an encoded item gives it back, whatever bytes follow it.

`tests/` holds the executable tests.
