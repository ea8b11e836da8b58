# gatling

A load test for Starknet nodes. A simulation declares three contract classes,
creates accounts, deploys an ERC20 and an ERC721 contract, fires a thousand
transfers at the one and a thousand mints at the other, and reports metrics of
the last four blocks for each. Both contracts are deployed from the ERC721 class.

The library in `src/` holds every decision of a simulation as a state machine,
proved with Verus: `GatlingShooter::pending` says what to do next,
`GatlingShooter::handle` takes the reply.

- `simulation` is the model: stages, actions, events and the step between states.
- `shooter` runs the model.
- `requests` builds the transactions; `connection` reads the configured deployer
  and names the chain; `environment` and `report` hold what a simulation leaves
  behind; `felt` holds field elements.
- `laws` and `phases` state what holds of whole simulations.
- `bindings` makes the calls into `starknet`, `serde_json` and `url`. Their
  contracts are trusted.

`app/` talks to the node: it performs the actions and hands back the events.
