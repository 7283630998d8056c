# solcery_vm

A virtual machine that runs the actions of cards on a board of memory
regions, together with the data it works on, verified with Verus.

## Layout

- `src/` is the verified library.
  - `word`, `byte_order`, `vmcommand`, `instruction_rom`: stack words, the
    instructions of the VM and their five-byte bytecode, and programs read
    from bytecode.
  - `card`, `bounded`, `rom`: cards, card types and the table of card types;
    attributes and entry points live in fixed-capacity `tinyvec` vectors.
  - `board`: the `Board` trait and its two boards, with per-player access to
    regions.
  - `vm`: the memory of the VM (`vm::memory`), the VM over a board
    (`vm::VM`), what each instruction and each run does (`vm::step`), and
    what holds of every run (`vm::laws`).
  - `on_chain_types`, `game_vm`: the same VM over a game state of objects.
  - `instruction`, `error`, `processor`: reading a transaction's instruction,
    running it on a board, and what setting up and joining a board compute.
- `tests/` runs the library on concrete values.
- `app/` is the Solana program around the library: accounts, `borsh`
  records of the library's types, and program errors.
