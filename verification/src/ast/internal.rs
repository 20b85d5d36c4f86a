//! Representations used inside the type checker.
use vstd::prelude::*;

use super::Ident;

verus! {

/// A place as the borrow checker tracks it: a variable and a path of
/// tuple projections below it.
#[derive(Debug, Clone, PartialEq, Eq)]
pub struct Place {
    pub ident: Ident,
    pub path: Vec<usize>,
}

} // verus!
