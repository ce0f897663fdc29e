pub mod persistent;
