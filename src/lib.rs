//! Dynamic-DNS reconciliation: detect the public address of each address
//! family and bring DNS records at the provider in line with it.

pub mod laws;
pub mod model;
pub mod provider;
pub mod reconcile;
pub mod text;
