pub mod load_types;
