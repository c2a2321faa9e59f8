# mirror_staking

The bookkeeping of a liquidity-staking contract, verified with Verus.

- `src/` is the verified library: fixed-point reward settlement
  (`rewards.rs`), how bonding and unbonding change a pool and a position,
  including LP-token migration (`bonding.rs`), the staking operations and the
  attributes they report (`staking.rs`), automatic staking through a liquidity
  pair (`auto_stake.rs`, `asset.rs`), refusals (`error.rs`), and the laws that
  hold across operations (`laws.rs`). `math.rs` holds the two calls into
  `cosmwasm_std` the library trusts: `Uint128 * Decimal` and `Uint128`'s
  decimal text.
- `app/` is the contract around it: storage records and their reads and
  writes, address canonicalization, chain queries (pair info, token balances,
  tax), and the encoding of messages.
- `tests/` runs the library on concrete values.

`terraswap` 2.4.1 stands in for `daodiseoswap`, which is not published on the
crate registry: the contract's swap-pair types, queries and tax computation come
from it (in `app/`), and `src/asset.rs` states and proves the native-funds check
that it shares with `daodiseoswap`.
