# azure_transport

The rules by which credential-flow requests of the Azure SDK (Microsoft Entra ID,
IMDS, and the like) go through a gateway's policy-aware HTTP client, verified with
Verus.

- `src/` is the library. It decides which policies apply to an endpoint, how long a
  token fetch may take, where a request goes, what its head is, and how the headers
  of a response come back to the SDK. `src/laws.rs` states what holds of these
  together.
- `app/` is the transport itself: it implements the SDK's `HttpClient` on top of
  the library and of a policy client, and does the calls.
- `tests/` runs the library with the `http`, `url` and `azure_core` crates.
