pub mod statistics;
