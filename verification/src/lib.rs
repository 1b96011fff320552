//! Verified core of a testing library for Dioxus applications.
//!
//! The library models the pieces of a rendered DOM that the tester reasons
//! about (accessibility nodes, element attributes, query chains) as plain
//! values, and states what each operation on them computes.

pub mod aria;
pub mod chain;
pub mod document;
pub mod element;
pub mod error;
pub mod query;
pub mod resolve;
pub mod role;
pub mod text;

pub use aria::{AriaNode, AriaTree};
pub use chain::ChainSearch;
pub use element::{Attribute, FocusDispatch, FocusEventKind, NodeId};
pub use error::TesterError;
pub use query::{
    by_role, by_testid, into_query, CssSelectorQuery, QueryByRole, QueryByTestId, QueryKind,
    RenderTarget,
};
pub use resolve::{resolve_all, resolve_chain, ChainMiss};
pub use role::Role;
