# atrium

The verified core of an AT Protocol client library. Each module states its behaviour
in `requires`/`ensures` contracts that Verus proves.

- `store`: the key-value store traits (`SimpleStore`, `CellStore`, `MapStore`) and the
  in-memory stores that implement them.
- `types`: DIDs, with their syntax check, and DID documents, with the lookup of the
  personal data server.
- `agent`: the session store of an agent, the headers its client adds, the refresh of
  sessions one at a time, and the credential session (login, account creation, resume).
- `xrpc`: token types, header names, and the errors of XRPC calls.
- `identity`: the requests and answers of DID, handle and protected-resource resolution.
- `resolver`: resolvers with a cache and with throttling.
- `oauth`: the stages of the OAuth flow, the authorization request and the callback.
- `dpop`: the DPoP client's nonce handling.
- `cached`: a value that is fetched again once it has expired.
- `codegen`: the computing parts of code generation from lexicons.
- `crypto`, `text`: encodings, digests, randomness and text helpers.
- `laws`: properties that span operations.

`app/` holds the JSON forms of the documents and the HTTP and file exchanges around the
library's decisions: the resolvers' requests, the DPoP retry, the session refresh, the
reads of a cached value, the OAuth authorization and callback, and the module files of
the code generator. `tests/` exercises the library on concrete values.
