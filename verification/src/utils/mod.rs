pub mod argv;
