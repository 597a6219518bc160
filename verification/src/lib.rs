//! Certificate-chain validation shim: the decision logic that turns what the
//! platform's native trust engine reports into a single fail-closed boolean.

pub mod validator;
