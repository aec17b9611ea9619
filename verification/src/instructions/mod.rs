pub mod initialize;
pub mod deposit;
pub mod swap;
pub mod withdraw;
