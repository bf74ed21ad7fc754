pub mod run_demo;
