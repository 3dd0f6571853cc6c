# rest_nwc_bridge

An HTTP gateway to a Nostr Wallet Connect (NIP-47) wallet, with its core verified
by Verus.

- `src/wallet.rs`: the wallet's NIP-47 records and command parameters as plain
  values, and their wire names.
- `src/models.rs`: the request and response bodies of the HTTP API.
- `src/routes.rs`: what each endpoint hands to the wallet and the answer it builds
  from the reply, with the laws that tie them together.
- `src/config.rs`: the listening port.
- `app/`: the server itself (axum handlers, the wallet client, notifications,
  webhook delivery, JSON encodings), which calls the library.
