use vstd::prelude::*;

pub mod frontmatter;
pub mod naming;
pub mod pipeline;
pub mod remote;
pub mod text;

verus! {

} // verus!
