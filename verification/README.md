# sollotto

Lottery programs for Solana, with their instruction and account formats,
their instruction builders and their processors' decisions verified with Verus.

- `src/` is the verified library. `program.rs` models the runtime values a
  processor sees (addresses, accounts, errors, instructions) and the effects it
  asks for: account writes and calls into the system and SPL Token programs.
  `token.rs` reads SPL Token records. The crate root holds the traditional
  lottery (`state`, `instruction`, `processor`, and `reward` for its prize
  tiers); `model2` to `model5` hold the
  pooled, launchpad, lifetime and fixed-quantity lotteries.
- Each processor returns the effects of an instruction, or its error, exactly
  as its specification states; the laws (`law_*` proof functions) relate
  records to their bytes and instructions to one another.
- `app/` runs the processors on the Solana runtime: it copies the accounts in,
  performs the calls and writes, and does what needs floating point (the SOL
  and token shares of a prize, the fixed-quantity ticket price).
- `tests/` runs the processors and codecs on concrete accounts.
