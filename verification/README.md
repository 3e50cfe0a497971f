# lurk

Proofs of evaluations. The trace of an evaluation is cut into chunks of equally
many frames. One circuit checks them all, and what it says of each chunk is
folded, one chunk after the other, into one relaxed R1CS instance. What is
proved at the end is that instance.

`src/` is the library. It is verified with [Verus](https://github.com/verus-lang/verus).

- `store`, `eval`: pointers, the scalars they stand for, and the states and steps
  of an evaluation.
- `circuit`: the public inputs of a state, and how a trace is cut into chunks.
- `prover`: when a trace needs padding.
- `r1cs`: the calls into `nova-snark`. All that the library trusts stands here.
- `nova`: proofs, and the prover that makes them.
- `folding`: what a proof says of a trace, and the laws that follow: that the
  proof of a satisfied trace verifies, that the final instance commits to its
  witness whatever the trace, that the steps can be replayed without witnesses,
  that verifying the steps changes nothing but that they are kept.

`app/` runs evaluators and circuits and hands what they give to the library.
