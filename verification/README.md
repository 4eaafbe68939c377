# ic_nns_governance

A Verus library with two parts.

- `pb::v1`: the messages and enumerations of the NNS governance canister's
  protocol. Each enumeration maps to and from its wire number and to its
  ProtoBuf name, with the round trips and the injectivity of the names proved;
  messages carry getters and setters of their enumeration fields with
  contracts over the stored numbers.
- `canister_threshold_sigs`: the decisions of the IDkg and threshold-ECDSA test
  utilities: which nodes become dealers and receivers under each strategy (and
  that the threshold strategy always meets the collection thresholds), random
  picks of receivers, dealers and fresh node ids outside excluded sets, and
  flipping one bit of signatures and signature batches, with the flip proved
  to change the value and to undo itself.

`ids`, `nervous_system` and `sns_swap` hold the identifiers and the nervous
system and swap types that the messages refer to.

`app/` holds what cannot be verified: the wire-format derives of the
enumerations, the floating-point metrics, the signature interfaces over the
replica's types, and the test environment built on the replica's crypto
components, which calls into the library for every decision above.
