//! Account checking and call forwarding for a proxy in front of an automated
//! market maker (AMM) program.
//!
//! Every operation of the proxy receives an ordered list of accounts and a few
//! integer parameters. The accounts are checked against a fixed shape, in the
//! order in which an Anchor program checks them, and then handed, together
//! with the parameters, unchanged to the AMM program.
pub mod account;
pub mod forward;
pub mod deposit;
pub mod amm_proxy;
