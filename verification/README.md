# dln_node

The wallet and control surface of a Lightning node: what the node is asked for a
request, what is answered from its word, and what is announced of its events.

- `src/` is the library, proved with Verus. A handler is split where the node is
  asked: one function says what to ask or refuses, and one turns the node's word
  into the answer.
  - `wallet` and its modules hold the twenty-three wallet methods, `control` the
    fourteen control methods, `events` the notifications.
  - `nwc` and `nnc` are the requests and answers of the two protocols; `lightning`
    and `state` are what the node and its memory hand over; `uri` and `params` are
    payment URIs.
  - `foreign` holds every call into std or another crate that is taken on trust.
  - `laws` states what holds across handlers.
- `app/` runs a node: it asks the node, reads and writes what is remembered, and
  serves requests over Nostr.
- `tests/` runs the library on given values.

## Payment URIs

The crate `bip321` reads and writes payment URIs. It would parse and print anew
each invoice, offer and address, take an address of the main network alone, and
refuse an amount of zero. The node takes instructions as they stand, so the
library keeps them from it: `uri` sorts the parameters, hands the crate each
instruction as a silent payment code, which it leaves alone, and puts what it
writes into its final form. The scheme, the amount, the label, the message and
every other parameter are the crate's to read.
