pub mod pair;
