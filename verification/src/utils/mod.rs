pub mod fade_table;
