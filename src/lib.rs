pub mod bytes;
pub mod compile;
pub mod matcher;
pub mod negotiate;
pub mod options;
pub mod types;
