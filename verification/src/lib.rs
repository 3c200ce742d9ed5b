//! A small verified kernel of functional-programming operations: recursion
//! (`factorial`), pure arithmetic (`square`), mapping and composition over
//! sequences (`map`, `compose`), folding (`sum`), partial application
//! (`curry_add`), and pattern matching over tagged variants
//! (`get_human_name` on [`values::Optional`]).

pub mod arith;
pub mod curry;
pub mod seq_ops;
pub mod values;

pub use arith::factorial;
pub use arith::square;
pub use curry::curry_add;
pub use seq_ops::compose;
pub use seq_ops::sum;
pub use values::get_human_name;
pub use values::Human;
pub use values::Optional;
pub use values::Outcome;
