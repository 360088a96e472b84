//! What holds of the library as a whole.

pub mod conversations;
pub mod names;
pub mod places;
pub mod rounds;
pub mod streams;
pub mod waiting;
