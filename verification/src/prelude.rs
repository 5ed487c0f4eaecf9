//! The traits that callers usually want in scope.

pub use crate::traits::as_prim::AsPrim;
pub use crate::traits::as_prim::FromPrim;
pub use crate::traits::as_prim::ToPrim;
pub use crate::traits::of_to::Of;
pub use crate::traits::of_to::To;
pub use crate::traits::try_to::TryTo;
