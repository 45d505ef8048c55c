//! A registered participant record imported from an external registration
//! system, with the canonical total order used to sort and deduplicate such
//! records, structural equality, and a reversible field-named encoding.

pub mod codec;
pub mod laws;
pub mod member;
pub mod order;

pub use member::MemberView;
pub use member::UdaMember;
