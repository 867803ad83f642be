pub mod logic;
