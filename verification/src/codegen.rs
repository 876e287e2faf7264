pub mod generator;
pub mod model;
pub mod validation;

pub use generator::InterfaceGenerator;
pub use validation::{NumberRules, PropRules, StringRules, ValidationGenerator, ValidatorLib};
