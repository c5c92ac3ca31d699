//! Pass-through adapters for the bundled developer tools: the code
//! formatter, the feature linter, the SDK version manager, and the
//! PR-documentation generator.  Each adapter translates the wrapper's
//! parsed options one-to-one into the wrapped tool's own argument list.

pub mod checkup;
pub mod flint;
pub mod format;
pub mod prdoc;
pub mod psvm;
