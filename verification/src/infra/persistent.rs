pub mod counter_adapter;
pub mod counter_document;
