//! A typed, graph-structured intermediate representation for a compiler
//! backend, together with the traversal protocol that passes are built on.
//!
//! Every executable function carries a contract over mathematical models
//! (sequences of characters for rendered text, sequences of nodes for
//! traversals), and every contract is proved.

pub mod ir;
