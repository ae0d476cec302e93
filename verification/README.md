# Lenso OpenTelemetry Module

A removable OpenTelemetry Module for Lenso applications, written in Rust and proved with
[Verus](https://github.com/verus-lang/verus). It carries W3C trace contexts through Kernel
invocations, turns Runtime Diagnostics into structural logs, and exports application signals
from bounded queues. Observability semantics do not live in the portable core.

## Layout

- `src/` is the verified library. Every function states in `requires` and `ensures` what it
  does. The modules whose names end in `_laws` state what holds across functions: what a read
  gives back of a write, what a queue never exceeds, what a stale generation cannot disturb.
- `tests/` runs the library, with the real Kernel, Native Execution Adapter and cryptography
  crates linked.
- `app/` is ordinary Rust around the library: Kernel and Adapter traits, asynchronous export
  workers, and the shared handles of a composition.

## What the library takes on trust

- `signature`: HMAC-SHA256 (`hmac`, `sha2`) is a function of key and message with a 32-byte
  result; URL-safe Base64 (`base64`) is stated digit by digit.
- `invocation`: reading and adding sealed extensions of a Kernel `InvocationContext`.
- `module`: the Kernel's all-source `DiagnosticFilter`, and the copy of its `RuntimeFailure`.
- `text`: `String::push` and `std::str::from_utf8`.
