pub mod forward;
pub mod startup;
pub mod terminal;
