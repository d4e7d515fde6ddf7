# eth_call_ledger

The decisions behind the `eth_call` family of RPC requests, written in Rust and proved
with Verus: which step comes next, which settings a call runs with, what a call did to
the balances of the accounts that it touched.

## Layout

- `src/` is the library. All of its functions are verified, but for the wrappers round
  `alloy_primitives` and `alloy_evm`, whose contracts are trusted: 256-bit arithmetic and
  comparison (`word`), digits (`text`), Keccak-256 (`logs`), the gas allowance of a sender
  (`settings`) and block overrides (`block_parts`). Each says above it what it claims of
  the function that it calls.
  - `word`, `primitives`, `text`, `amount`, `table`: 256-bit words, addresses, their
    text, signed amounts, and a map without duplicate keys.
  - `abi`, `logs`, `ledger`, `token_changes`, `token_laws`, `report_laws`: event data, the token
    movements that logs report, and the net changes that follow from them.
  - `block`, `errors`, `settings`, `block_parts`, `outcome`: what requests, blocks and
    executions are made of.
  - `prepare`, `sequence`, `tracking`, `bundles`, `access_list`, `simulate`, `replay`,
    `replay_until`, `transaction_replay`: the requests themselves, each as a state machine. `action`
    says what the node has to do next, and `advance` takes what came of it.
- `app/` serves the requests with a node: it reads the chain, runs the EVM, and converts
  values.
- `tests/` runs the library on concrete values.

Text encodings: ERC-20 deltas and the balances before and after a call are hexadecimal
with a leading `0x`. Sender and native changes, token identifiers and ERC-1155 deltas
are decimal.
