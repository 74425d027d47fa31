pub mod histogram;
