//! Builders for one kind of target each, so that what one kind of command
//! needs does not leak into another.
pub mod test;
pub mod doc_test;

pub use doc_test::DocTestBuilder;
pub use test::TestBuilder;
